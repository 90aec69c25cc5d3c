use vstd::prelude::*;
use crate::text::{decode_utf8_lossy, utf8_lossy};

verus! {

/// The kind of a physical device, as Vulkan reports it.
#[derive(Debug, Clone, Copy, PartialEq, Eq, Structural)]
pub enum DeviceKind {
    Other,
    IntegratedGpu,
    DiscreteGpu,
    VirtualGpu,
    Cpu,
}

impl DeviceKind {
    /// The kind a Vulkan `VkPhysicalDeviceType` code names; unknown codes are `Other`.
    pub fn from_code(code: i32) -> (kind: DeviceKind)
        ensures
            kind == spec_kind_of_code(code),
    {
        match code {
            1 => DeviceKind::IntegratedGpu,
            2 => DeviceKind::DiscreteGpu,
            3 => DeviceKind::VirtualGpu,
            4 => DeviceKind::Cpu,
            _ => DeviceKind::Other,
        }
    }
}

/// The kind a Vulkan `VkPhysicalDeviceType` code names (`OTHER` is 0,
/// `INTEGRATED_GPU` 1, `DISCRETE_GPU` 2, `VIRTUAL_GPU` 3, `CPU` 4).
pub open spec fn spec_kind_of_code(code: i32) -> DeviceKind {
    if code == 1 {
        DeviceKind::IntegratedGpu
    } else if code == 2 {
        DeviceKind::DiscreteGpu
    } else if code == 3 {
        DeviceKind::VirtualGpu
    } else if code == 4 {
        DeviceKind::Cpu
    } else {
        DeviceKind::Other
    }
}

/// The kinds of device in the order the engine prefers them:
/// discrete GPU, integrated GPU, virtual GPU, CPU, anything else.
pub open spec fn kind_rank(kind: DeviceKind) -> nat {
    match kind {
        DeviceKind::DiscreteGpu => 4,
        DeviceKind::IntegratedGpu => 3,
        DeviceKind::VirtualGpu => 2,
        DeviceKind::Cpu => 1,
        DeviceKind::Other => 0,
    }
}

/// One more than the largest amount of video memory a `u64` can hold.
pub open spec fn vram_span() -> nat {
    0x1_0000_0000_0000_0000
}

/// The score of a device: its kind decides, and its video memory (in bytes)
/// breaks ties between devices of the same kind.
pub open spec fn device_score(kind: DeviceKind, vram_bytes: u64) -> nat {
    kind_rank(kind) * vram_span() + vram_bytes as nat
}

/// Score a GPU. Higher is better.
/// Discrete GPU > Integrated GPU > everything else; video memory is the
/// tiebreaker between two GPUs of the same kind.
pub fn score_device(kind: DeviceKind, vram_bytes: u64) -> (score: u128)
    ensures
        score == device_score(kind, vram_bytes),
{
    let rank: u128 = match kind {
        DeviceKind::DiscreteGpu => 4,
        DeviceKind::IntegratedGpu => 3,
        DeviceKind::VirtualGpu => 2,
        DeviceKind::Cpu => 1,
        DeviceKind::Other => 0,
    };
    rank * 0x1_0000_0000_0000_0000u128 + vram_bytes as u128
}

/// A memory heap of a device.
#[derive(Debug, Clone, Copy, PartialEq, Eq, Structural)]
pub struct MemoryHeap {
    /// Its size in bytes.
    pub size: u64,
    /// Whether it is local to the device (video memory).
    pub device_local: bool,
}

/// The total size of the device-local heaps.
pub open spec fn device_local_total(heaps: Seq<MemoryHeap>) -> nat
    decreases heaps.len(),
{
    if heaps.len() == 0 {
        0
    } else {
        device_local_total(heaps.drop_last()) + (if heaps.last().device_local {
            heaps.last().size as nat
        } else {
            0nat
        })
    }
}

/// The video memory of a device: the total size of its device-local heaps,
/// saturated at `u64::MAX`.
pub fn vram_size(heaps: &[MemoryHeap]) -> (vram: u64)
    ensures
        vram == (if device_local_total(heaps@) > u64::MAX { u64::MAX as nat } else { device_local_total(heaps@) }),
{
    let mut total: u64 = 0;
    let n = heaps.len();
    for i in 0..n
        invariant
            n == heaps@.len(),
            total == (if device_local_total(heaps@.take(i as int)) > u64::MAX {
                u64::MAX as nat
            } else {
                device_local_total(heaps@.take(i as int))
            }),
    {
        proof {
            assert(heaps@.take(i + 1).drop_last() =~= heaps@.take(i as int));
            assert(heaps@.take(i + 1).last() == heaps@[i as int]);
        }
        if heaps[i].device_local {
            total = total.saturating_add(heaps[i].size);
        }
    }
    proof {
        assert(heaps@.take(n as int) =~= heaps@);
    }
    total
}

} // verus!

verus! {

/// Queue family indices required by the engine.
/// Both a graphics and a present family must exist for a device to be suitable.
#[derive(Debug, Clone, Copy, PartialEq, Eq, Structural)]
pub struct QueueFamilyIndices {
    pub graphics: u32,
    pub present: u32,
}

/// Index of the first `true` at or after `from`, or -1 when there is none.
pub open spec fn first_true(flags: Seq<bool>, from: int) -> int
    decreases flags.len() - from,
{
    if from < 0 || from >= flags.len() {
        -1
    } else if flags[from] {
        from
    } else {
        first_true(flags, from + 1)
    }
}

/// Index of the last `true` at or before `k`, or -1 when there is none.
pub open spec fn last_true_upto(flags: Seq<bool>, k: int) -> int
    decreases k + 1,
{
    if k < 0 || k >= flags.len() {
        -1
    } else if flags[k] {
        k
    } else {
        last_true_upto(flags, k - 1)
    }
}

/// The queue families that the search over the families of a device settles on,
/// given for each family whether it supports graphics and whether it can present.
///
/// The search stops at the first family by which both a graphics family and a
/// present family have been seen; up to that point a later family of a kind
/// replaces an earlier one. So the kind that was seen last is taken at the stop,
/// and the other kind is its last family up to the stop.
pub open spec fn spec_queue_families(graphics: Seq<bool>, present: Seq<bool>) -> Option<QueueFamilyIndices> {
    let fg = first_true(graphics, 0);
    let fp = first_true(present, 0);
    if fg < 0 || fp < 0 {
        None
    } else if fg <= fp {
        Some(QueueFamilyIndices { graphics: last_true_upto(graphics, fp) as u32, present: fp as u32 })
    } else {
        Some(QueueFamilyIndices { graphics: fg as u32, present: last_true_upto(present, fg) as u32 })
    }
}

/// Whether a sequence holds at least one `true`.
pub open spec fn any_true(flags: Seq<bool>) -> bool {
    exists|i: int| 0 <= i < flags.len() && flags[i]
}

proof fn lemma_first_true_range(flags: Seq<bool>, from: int)
    requires
        0 <= from,
    ensures
        first_true(flags, from) == -1 || (from <= first_true(flags, from) < flags.len()
            && flags[first_true(flags, from)]),
        first_true(flags, from) == -1 ==> forall|j: int| from <= j < flags.len() ==> !flags[j],
        first_true(flags, from) >= 0 ==> forall|j: int| from <= j < first_true(flags, from) ==> !flags[j],
    decreases flags.len() - from,
{
    if from < 0 || from >= flags.len() {
    } else if flags[from] {
    } else {
        lemma_first_true_range(flags, from + 1);
    }
}

proof fn lemma_first_true_push(flags: Seq<bool>, x: bool, from: int)
    requires
        0 <= from <= flags.len(),
    ensures
        first_true(flags.push(x), from) == (if first_true(flags, from) >= 0 {
            first_true(flags, from)
        } else if x {
            flags.len() as int
        } else {
            -1
        }),
    decreases flags.len() - from,
{
    let pushed = flags.push(x);
    if from == flags.len() {
        assert(pushed[from] == x);
        assert(first_true(pushed, from + 1) == -1);
    } else {
        assert(pushed[from] == flags[from]);
        lemma_first_true_push(flags, x, from + 1);
    }
}

proof fn lemma_last_true_push(flags: Seq<bool>, x: bool, k: int)
    requires
        -1 <= k < flags.len(),
    ensures
        last_true_upto(flags.push(x), k) == last_true_upto(flags, k),
    decreases k + 1,
{
    if k >= 0 {
        lemma_last_true_push(flags, x, k - 1);
    }
}

proof fn lemma_last_true_range(flags: Seq<bool>, k: int)
    ensures
        last_true_upto(flags, k) == -1 || (0 <= last_true_upto(flags, k) <= k
            && last_true_upto(flags, k) < flags.len()),
    decreases k + 1,
{
    if k < 0 || k >= flags.len() {
    } else if !flags[k] {
        lemma_last_true_range(flags, k - 1);
    }
}

proof fn lemma_last_true_exists(flags: Seq<bool>, k: int)
    requires
        k < flags.len(),
    ensures
        (last_true_upto(flags, k) >= 0) == (exists|j: int| 0 <= j <= k && flags[j]),
    decreases k + 1,
{
    if k >= 0 && !flags[k] {
        lemma_last_true_exists(flags, k - 1);
        if exists|j: int| 0 <= j <= k && flags[j] {
            let j = choose|j: int| 0 <= j <= k && flags[j];
            assert(0 <= j <= k - 1 && flags[j]);
        }
    }
}

proof fn lemma_any_true_first(s: Seq<bool>)
    ensures
        any_true(s) == (first_true(s, 0) >= 0),
{
    lemma_first_true_range(s, 0);
    if any_true(s) {
        let j = choose|j: int| 0 <= j < s.len() && s[j];
    }
}

/// What the search needs to know of a flag sequence before and after one more flag.
proof fn lemma_flags_push(s: Seq<bool>, x: bool)
    ensures
        last_true_upto(s.push(x), s.len() - 1) == last_true_upto(s, s.len() - 1),
        first_true(s.push(x), 0) == (if first_true(s, 0) >= 0 {
            first_true(s, 0)
        } else if x {
            s.len() as int
        } else {
            -1
        }),
        last_true_upto(s, s.len() - 1) == -1 || 0 <= last_true_upto(s, s.len() - 1) < s.len(),
        (last_true_upto(s.push(x), s.len() as int) >= 0) == (exists|j: int| 0 <= j <= s.len() && s.push(x)[j]),
        (last_true_upto(s, s.len() - 1) >= 0) == (exists|j: int| 0 <= j <= s.len() - 1 && s[j]),
        any_true(s) == (first_true(s, 0) >= 0),
        any_true(s.push(x)) == (first_true(s.push(x), 0) >= 0),
        first_true(s, 0) == -1 || 0 <= first_true(s, 0) < s.len(),
        first_true(s.push(x), 0) == -1 || 0 <= first_true(s.push(x), 0) <= s.len(),
{
    lemma_first_true_range(s, 0);
    lemma_first_true_range(s.push(x), 0);
    lemma_last_true_push(s, x, s.len() - 1);
    lemma_first_true_push(s, x, 0);
    lemma_last_true_range(s, s.len() - 1);
    lemma_last_true_exists(s.push(x), s.len() as int);
    lemma_last_true_exists(s, s.len() - 1);
    lemma_any_true_first(s);
    lemma_any_true_first(s.push(x));
}

/// The running state of the queue-family search over one device: the families
/// are examined in order, and the search stops as soon as a graphics family and
/// a present family have both been seen.
pub struct QueueFamilySearch {
    graphics: Option<u32>,
    present: Option<u32>,
    examined: u32,
    seen_graphics: Ghost<Seq<bool>>,
    seen_present: Ghost<Seq<bool>>,
}

/// The `Option` form of an index that is -1 when absent.
pub open spec fn index_option(i: int) -> Option<u32> {
    if i < 0 {
        None
    } else {
        Some(i as u32)
    }
}

impl QueueFamilySearch {
    /// For each examined family, whether it supports graphics.
    pub closed spec fn graphics_flags(&self) -> Seq<bool> {
        self.seen_graphics@
    }

    /// For each examined family, whether it can present to the surface.
    pub closed spec fn present_flags(&self) -> Seq<bool> {
        self.seen_present@
    }

    /// Whether both a graphics and a present family have been seen.
    pub open spec fn is_done(&self) -> bool {
        any_true(self.graphics_flags()) && any_true(self.present_flags())
    }

    pub closed spec fn wf(&self) -> bool {
        &&& self.seen_graphics@.len() == self.examined
        &&& self.seen_present@.len() == self.examined
        &&& self.graphics == index_option(last_true_upto(self.seen_graphics@, self.examined - 1))
        &&& self.present == index_option(last_true_upto(self.seen_present@, self.examined - 1))
        &&& self.is_done() == (self.graphics is Some && self.present is Some)
        &&& spec_queue_families(self.seen_graphics@, self.seen_present@) == (if self.is_done() {
            Some(QueueFamilyIndices { graphics: self.graphics->0, present: self.present->0 })
        } else {
            None
        })
    }

    /// A search that has examined no family yet.
    pub fn new() -> (s: Self)
        ensures
            s.wf(),
            s.graphics_flags() == Seq::<bool>::empty(),
            s.present_flags() == Seq::<bool>::empty(),
    {
        QueueFamilySearch {
            graphics: None,
            present: None,
            examined: 0,
            seen_graphics: Ghost(Seq::empty()),
            seen_present: Ghost(Seq::empty()),
        }
    }

    /// The index of the next family to examine.
    pub fn next_index(&self) -> (i: u32)
        requires
            self.wf(),
        ensures
            i == self.graphics_flags().len(),
    {
        self.examined
    }

    /// Record the next family; returns whether the search is now complete.
    pub fn observe(&mut self, supports_graphics: bool, supports_present: bool) -> (done: bool)
        requires
            old(self).wf(),
            !old(self).is_done(),
            old(self).graphics_flags().len() < u32::MAX,
        ensures
            final(self).wf(),
            final(self).graphics_flags() == old(self).graphics_flags().push(supports_graphics),
            final(self).present_flags() == old(self).present_flags().push(supports_present),
            done == final(self).is_done(),
    {
        let ghost og = self.seen_graphics@;
        let ghost op = self.seen_present@;
        let i = self.examined;
        if supports_graphics {
            self.graphics = Some(i);
        }
        if supports_present {
            self.present = Some(i);
        }
        self.examined = i + 1;
        self.seen_graphics = Ghost(og.push(supports_graphics));
        self.seen_present = Ghost(op.push(supports_present));
        proof {
            lemma_flags_push(og, supports_graphics);
            lemma_flags_push(op, supports_present);
        }
        self.graphics.is_some() && self.present.is_some()
    }

    /// The queue families found: those that the search settles on when both
    /// kinds were seen, `None` when one is missing among the examined families.
    pub fn finish(&self) -> (r: Option<QueueFamilyIndices>)
        requires
            self.wf(),
        ensures
            r == spec_queue_families(self.graphics_flags(), self.present_flags()),
    {
        match (self.graphics, self.present) {
            (Some(graphics), Some(present)) => Some(QueueFamilyIndices { graphics, present }),
            _ => None,
        }
    }
}

} // verus!

verus! {

/// Errors of physical-device selection.
#[derive(Debug, Clone, Copy, PartialEq, Eq, Structural)]
pub enum PhysicalDeviceError {
    /// A Vulkan call failed with this result code.
    Vulkan(i32),
    /// No device offers both a graphics and a present queue family.
    NoSuitableDevice,
}

/// What selection reads of one physical device.
#[derive(Debug, Clone, Copy, PartialEq, Eq, Structural)]
pub struct DeviceCandidate {
    pub kind: DeviceKind,
    /// Its video memory in bytes.
    pub vram_bytes: u64,
    /// The queue families found for the device, `None` when one is missing.
    pub queue_families: Option<QueueFamilyIndices>,
}

/// A candidate can be chosen only when both queue families were found.
pub open spec fn is_suitable(c: DeviceCandidate) -> bool {
    c.queue_families is Some
}

pub open spec fn candidate_score(c: DeviceCandidate) -> nat {
    device_score(c.kind, c.vram_bytes)
}

/// `i` is the suitable candidate with the highest score, the first one among equals.
pub open spec fn is_best_candidate(cs: Seq<DeviceCandidate>, i: int) -> bool {
    &&& 0 <= i < cs.len()
    &&& is_suitable(cs[i])
    &&& forall|j: int| 0 <= j < cs.len() && is_suitable(#[trigger] cs[j]) ==> candidate_score(cs[j]) <= candidate_score(cs[i])
    &&& forall|j: int| 0 <= j < i && is_suitable(#[trigger] cs[j]) ==> candidate_score(cs[j]) < candidate_score(cs[i])
}

/// Pick the device to render with: among the devices that have both queue
/// families, the one of the most preferred kind, with the most video memory
/// among those, the first one on a tie.
/// Returns its index among the candidates.
pub fn select_device(candidates: &Vec<DeviceCandidate>) -> (r: Result<usize, PhysicalDeviceError>)
    ensures
        r is Ok <==> exists|i: int| 0 <= i < candidates@.len() && is_suitable(#[trigger] candidates@[i]),
        r is Ok <==> exists|i: int| 0 <= i < candidates@.len() && (#[trigger] candidates@[i]).queue_families is Some,
        r matches Ok(i) ==> is_best_candidate(candidates@, i as int),
        r matches Ok(i) ==> candidates@[i as int].queue_families is Some,
        r matches Err(e) ==> e == PhysicalDeviceError::NoSuitableDevice,
{
    let mut best: Option<(u128, usize)> = None;
    let n = candidates.len();
    for k in 0..n
        invariant
            n == candidates@.len(),
            best is None <==> forall|j: int| 0 <= j < k ==> !is_suitable(#[trigger] candidates@[j]),
            best matches Some((s, i)) ==> {
                &&& i < k
                &&& s == candidate_score(candidates@[i as int])
                &&& is_suitable(candidates@[i as int])
                &&& forall|j: int| 0 <= j < k && is_suitable(#[trigger] candidates@[j]) ==> candidate_score(candidates@[j]) <= s
                &&& forall|j: int| 0 <= j < i && is_suitable(#[trigger] candidates@[j]) ==> candidate_score(candidates@[j]) < s
            },
    {
        let c = candidates[k];
        if c.queue_families.is_some() {
            assert(is_suitable(candidates@[k as int]));
            let score = score_device(c.kind, c.vram_bytes);
            let better = match best {
                None => true,
                Some((best_score, _)) => score > best_score,
            };
            if better {
                best = Some((score, k));
            }
        }
    }
    match best {
        Some((_, i)) => Ok(i),
        None => Err(PhysicalDeviceError::NoSuitableDevice),
    }
}

/// Index of the first NUL byte at or after `i`, or -1.
pub open spec fn first_nul(bytes: Seq<u8>, i: int) -> int
    decreases bytes.len() - i,
{
    if i < 0 || i >= bytes.len() {
        -1
    } else if bytes[i] == 0 {
        i
    } else {
        first_nul(bytes, i + 1)
    }
}

/// The name shown for a device whose name field holds `raw`: the bytes before
/// the first NUL, decoded as UTF-8 (invalid sequences replaced), or
/// `<unknown>` when the field holds no NUL.
pub open spec fn spec_device_name(raw: Seq<u8>) -> Seq<char> {
    let n = first_nul(raw, 0);
    if n < 0 {
        "<unknown>"@
    } else {
        utf8_lossy(raw.take(n))
    }
}

/// The name of a device, from the bytes of its name field.
pub fn device_name(raw: &[u8]) -> (name: String)
    ensures
        name@ == spec_device_name(raw@),
{
    let n = raw.len();
    let mut i: usize = 0;
    while i < n
        invariant
            n == raw@.len(),
            i <= n,
            first_nul(raw@, 0) == first_nul(raw@, i as int),
        decreases n - i,
    {
        if raw[i] == 0 {
            let mut prefix: Vec<u8> = Vec::new();
            let mut k: usize = 0;
            while k < i
                invariant
                    k <= i < n,
                    n == raw@.len(),
                    prefix@ == raw@.take(k as int),
                decreases i - k,
            {
                prefix.push(raw[k]);
                proof {
                    assert(raw@.take(k + 1) =~= raw@.take(k as int).push(raw@[k as int]));
                }
                k = k + 1;
            }
            return decode_utf8_lossy(prefix.as_slice());
        }
        i = i + 1;
    }
    String::from_str("<unknown>")
}

} // verus!

verus! {

proof fn lemma_first_true_take(s: Seq<bool>, n: int, i: int)
    requires
        0 <= i,
        0 <= n <= s.len(),
    ensures
        first_true(s.take(n), i) == (if 0 <= first_true(s, i) < n { first_true(s, i) } else { -1 }),
    decreases s.len() - i,
{
    lemma_first_true_range(s, i);
    if i < n {
        assert(s.take(n)[i] == s[i]);
        if !s[i] {
            lemma_first_true_take(s, n, i + 1);
        }
    }
}

proof fn lemma_last_true_take(s: Seq<bool>, n: int, k: int)
    requires
        0 <= n <= s.len(),
        k < n,
    ensures
        last_true_upto(s.take(n), k) == last_true_upto(s, k),
    decreases k + 1,
{
    if k >= 0 {
        assert(s.take(n)[k] == s[k]);
        lemma_last_true_take(s, n, k - 1);
    }
}

/// Once both a graphics family and a present family occur among the first
/// `k + 1` families, the families after them do not change which queue
/// families are found: the search may stop there.
pub proof fn lemma_search_stops_early(graphics: Seq<bool>, present: Seq<bool>, k: int)
    requires
        graphics.len() == present.len(),
        0 <= k < graphics.len(),
        any_true(graphics.take(k + 1)),
        any_true(present.take(k + 1)),
    ensures
        spec_queue_families(graphics, present) == spec_queue_families(graphics.take(k + 1), present.take(k + 1)),
{
    let n = k + 1;
    lemma_first_true_take(graphics, n, 0);
    lemma_first_true_take(present, n, 0);
    lemma_first_true_range(graphics.take(n), 0);
    lemma_first_true_range(present.take(n), 0);
    let wg = choose|j: int| 0 <= j < graphics.take(n).len() && graphics.take(n)[j];
    let wp = choose|j: int| 0 <= j < present.take(n).len() && present.take(n)[j];
    let fg = first_true(graphics, 0);
    let fp = first_true(present, 0);
    assert(0 <= fg < n);
    assert(0 <= fp < n);
    lemma_last_true_take(graphics, n, fp);
    lemma_last_true_take(present, n, fg);
}

/// Discrete GPU > integrated GPU > virtual GPU > CPU > anything else, whatever
/// their video memory; between devices of the same kind the one with more
/// video memory scores higher.
pub proof fn lemma_score_ranks_kinds(a: DeviceKind, va: u64, b: DeviceKind, vb: u64)
    ensures
        kind_rank(a) > kind_rank(b) ==> device_score(a, va) > device_score(b, vb),
        a == b ==> (device_score(a, va) > device_score(b, vb) <==> va > vb),
{
}

} // verus!

verus! {

/// `i` is the suitable candidate with the highest score among the first `n`,
/// the first one among equals.
spec fn best_upto(cs: Seq<DeviceCandidate>, n: int, i: int) -> bool {
    &&& 0 <= i < n <= cs.len()
    &&& is_suitable(cs[i])
    &&& forall|j: int| 0 <= j < n && is_suitable(#[trigger] cs[j]) ==> candidate_score(cs[j]) <= candidate_score(cs[i])
    &&& forall|j: int| 0 <= j < i && is_suitable(#[trigger] cs[j]) ==> candidate_score(cs[j]) < candidate_score(cs[i])
}

proof fn lemma_best_upto(cs: Seq<DeviceCandidate>, n: int) -> (i: int)
    requires
        0 < n <= cs.len(),
        exists|j: int| 0 <= j < n && (#[trigger] cs[j]).queue_families is Some,
    ensures
        best_upto(cs, n, i),
    decreases n,
{
    if exists|j: int| 0 <= j < n - 1 && (#[trigger] cs[j]).queue_families is Some {
        let i0 = lemma_best_upto(cs, n - 1);
        if cs[n - 1].queue_families is Some && candidate_score(cs[n - 1]) > candidate_score(cs[i0]) {
            n - 1
        } else {
            i0
        }
    } else {
        let w = choose|j: int| 0 <= j < n && (#[trigger] cs[j]).queue_families is Some;
        assert(w == n - 1);
        n - 1
    }
}

/// Whenever some device has both a graphics and a present queue family, a
/// device is chosen, whatever the kinds of the devices: only a device missing
/// a queue family is passed over.
pub proof fn law_some_device_chosen(cs: Seq<DeviceCandidate>)
    requires
        exists|j: int| 0 <= j < cs.len() && (#[trigger] cs[j]).queue_families is Some,
    ensures
        exists|i: int| is_best_candidate(cs, i),
{
    let i = lemma_best_upto(cs, cs.len() as int);
    assert(is_best_candidate(cs, i));
}

/// The device chosen has both queue families, and no device with both queue
/// families beats it: none is of a kind the engine prefers to its kind
/// (discrete GPU, then integrated GPU, virtual GPU, CPU, anything else), none
/// of its kind has more video memory, and none of its kind before it has as
/// much.
pub proof fn law_best_candidate(cs: Seq<DeviceCandidate>, i: int)
    requires
        is_best_candidate(cs, i),
    ensures
        0 <= i < cs.len(),
        cs[i].queue_families is Some,
        forall|j: int| 0 <= j < cs.len() && (#[trigger] cs[j]).queue_families is Some ==> {
            &&& cs[j].kind == DeviceKind::DiscreteGpu ==> cs[i].kind == DeviceKind::DiscreteGpu
            &&& cs[j].kind == DeviceKind::IntegratedGpu ==> (cs[i].kind == DeviceKind::DiscreteGpu
                || cs[i].kind == DeviceKind::IntegratedGpu)
            &&& cs[j].kind == DeviceKind::VirtualGpu ==> (cs[i].kind != DeviceKind::Cpu && cs[i].kind
                != DeviceKind::Other)
            &&& cs[j].kind == DeviceKind::Cpu ==> cs[i].kind != DeviceKind::Other
            &&& cs[j].kind == cs[i].kind ==> cs[j].vram_bytes <= cs[i].vram_bytes
            &&& (j < i && cs[j].kind == cs[i].kind) ==> cs[j].vram_bytes < cs[i].vram_bytes
        },
{
    assert forall|j: int| 0 <= j < cs.len() && (#[trigger] cs[j]).queue_families is Some implies {
        &&& cs[j].kind == DeviceKind::DiscreteGpu ==> cs[i].kind == DeviceKind::DiscreteGpu
        &&& cs[j].kind == DeviceKind::IntegratedGpu ==> (cs[i].kind == DeviceKind::DiscreteGpu || cs[i].kind
            == DeviceKind::IntegratedGpu)
        &&& cs[j].kind == DeviceKind::VirtualGpu ==> (cs[i].kind != DeviceKind::Cpu && cs[i].kind
            != DeviceKind::Other)
        &&& cs[j].kind == DeviceKind::Cpu ==> cs[i].kind != DeviceKind::Other
        &&& cs[j].kind == cs[i].kind ==> cs[j].vram_bytes <= cs[i].vram_bytes
        &&& (j < i && cs[j].kind == cs[i].kind) ==> cs[j].vram_bytes < cs[i].vram_bytes
    } by {
        assert(is_suitable(cs[j]));
        lemma_score_ranks_kinds(cs[j].kind, cs[j].vram_bytes, cs[i].kind, cs[i].vram_bytes);
    }
}

} // verus!
