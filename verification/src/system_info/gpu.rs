use vstd::prelude::*;
use crate::text::{
    contains_folded, contains_lowercased, find, find_from, lemma_find_from_occurs, lines, remove_all,
    spec_lines, spec_remove_all, decode_utf8_lossy, utf8_lossy, spec_trim, spec_trim_start, starts_with, trim, trimmed_starts_with,
    views,
};

verus! {

/// The tool whose output lists the GPUs of the machine.
#[derive(Debug, Clone, Copy, PartialEq, Eq, Structural)]
pub enum GpuTool {
    /// `lspci -nn` (Linux).
    Lspci,
    /// `Get-WmiObject Win32_VideoController | Select-Object Name` (Windows).
    VideoControllers,
    /// `system_profiler SPDisplaysDataType` (macOS).
    SystemProfiler,
}

/// The output of a GPU-listing tool, as the bytes it wrote.
#[derive(Debug)]
pub struct GpuListing {
    pub tool: GpuTool,
    pub output: Vec<u8>,
}

/// The name a line of `lspci` output contributes: lines that mention `vga` or
/// `3d` (in any case) and hold `": "` give what follows the first `": "`, trimmed
/// (trimming it again changes nothing: see `lemma_trim_idempotent`).
pub open spec fn lspci_entry(line: Seq<char>) -> Option<Seq<char>> {
    if contains_folded(line, "vga"@) || contains_folded(line, "3d"@) {
        let p = find_from(line, ": "@, 0);
        if p >= 0 {
            Some(spec_trim(line.subrange(p + 2, line.len() as int)))
        } else {
            None
        }
    } else {
        None
    }
}

/// The name a line of the video-controller listing contributes: the line
/// trimmed, when that leaves something.
pub open spec fn video_controller_entry(line: Seq<char>) -> Option<Seq<char>> {
    if spec_trim(line).len() > 0 {
        Some(spec_trim(line))
    } else {
        None
    }
}

/// The name a line of the display profile contributes: lines that start with
/// `Chipset Model:` after their indentation give the line without that label, trimmed.
pub open spec fn chipset_entry(line: Seq<char>) -> Option<Seq<char>> {
    if starts_with(spec_trim_start(line), "Chipset Model:"@) {
        Some(spec_trim(spec_remove_all(line, "Chipset Model:"@)))
    } else {
        None
    }
}

/// The name a line of a tool's output contributes, if any.
pub open spec fn line_entry(tool: GpuTool, line: Seq<char>) -> Option<Seq<char>> {
    match tool {
        GpuTool::Lspci => lspci_entry(line),
        GpuTool::VideoControllers => video_controller_entry(line),
        GpuTool::SystemProfiler => chipset_entry(line),
    }
}

/// The names that the lines contribute, in order.
pub open spec fn line_entries(tool: GpuTool, lines: Seq<Seq<char>>) -> Seq<Seq<char>>
    decreases lines.len(),
{
    if lines.len() == 0 {
        Seq::empty()
    } else {
        let rest = line_entries(tool, lines.drop_last());
        match line_entry(tool, lines.last()) {
            Some(name) => rest.push(name),
            None => rest,
        }
    }
}

/// The lines of a tool's output that name GPUs: the video-controller listing
/// starts with a header line and a rule.
pub open spec fn listed_lines(tool: GpuTool, output: Seq<char>) -> Seq<Seq<char>> {
    let ls = spec_lines(output);
    if tool == GpuTool::VideoControllers {
        if ls.len() < 2 {
            Seq::empty()
        } else {
            ls.skip(2)
        }
    } else {
        ls
    }
}

/// The GPU names read from a listing's text; `None` when no listing could be made.
/// Without a listing, or when `lspci` names no GPU, the one name is `unknown`.
pub open spec fn spec_gpu_names(tool: Option<GpuTool>, output: Seq<char>) -> Seq<Seq<char>> {
    match tool {
        None => seq!["unknown"@],
        Some(t) => {
            let names = line_entries(t, listed_lines(t, output));
            if t == GpuTool::Lspci && names.len() == 0 {
                seq!["unknown"@]
            } else {
                names
            }
        },
    }
}

fn lspci_line(line: &str) -> (r: Option<String>)
    ensures
        r matches Some(x) ==> lspci_entry(line@) == Some(x@),
        r is None ==> lspci_entry(line@) is None,
{
    if contains_lowercased(line, "vga") || contains_lowercased(line, "3d") {
        match find(line, ": ") {
            Some(p) => {
                proof {
                    reveal_strlit(": ");
                    lemma_find_from_occurs(line@, ": "@, 0);
                }
                let n = line.unicode_len();
                let rest = line.substring_char(p + 2, n);
                Some(trim(rest))
            },
            None => None,
        }
    } else {
        None
    }
}

fn video_controller_line(line: &str) -> (r: Option<String>)
    ensures
        r matches Some(x) ==> video_controller_entry(line@) == Some(x@),
        r is None ==> video_controller_entry(line@) is None,
{
    let t = trim(line);
    if t.as_str().unicode_len() > 0 {
        Some(t)
    } else {
        None
    }
}

fn chipset_line(line: &str) -> (r: Option<String>)
    ensures
        r matches Some(x) ==> chipset_entry(line@) == Some(x@),
        r is None ==> chipset_entry(line@) is None,
{
    if trimmed_starts_with(line, "Chipset Model:") {
        proof {
            reveal_strlit("Chipset Model:");
        }
        let cleaned = remove_all(line, "Chipset Model:");
        Some(trim(cleaned.as_str()))
    } else {
        None
    }
}

fn entry_of_line(tool: GpuTool, line: &str) -> (r: Option<String>)
    ensures
        r matches Some(x) ==> line_entry(tool, line@) == Some(x@),
        r is None ==> line_entry(tool, line@) is None,
{
    match tool {
        GpuTool::Lspci => lspci_line(line),
        GpuTool::VideoControllers => video_controller_line(line),
        GpuTool::SystemProfiler => chipset_line(line),
    }
}

fn entries_of_lines(tool: GpuTool, lines: &Vec<String>, start: usize) -> (r: Vec<String>)
    requires
        start <= lines@.len(),
    ensures
        views(r@) == line_entries(tool, views(lines@).subrange(start as int, lines@.len() as int)),
{
    let n = lines.len();
    let mut out: Vec<String> = Vec::new();
    let ghost ls = views(lines@);
    for i in start..n
        invariant
            n == lines@.len(),
            ls == views(lines@),
            start <= n,
            views(out@) == line_entries(tool, ls.subrange(start as int, i as int)),
    {
        let e = entry_of_line(tool, lines[i].as_str());
        proof {
            let prefix = ls.subrange(start as int, i + 1);
            assert(prefix.drop_last() =~= ls.subrange(start as int, i as int));
            assert(prefix.last() == lines@[i as int]@);
        }
        match e {
            Some(name) => {
                proof {
                    assert(views(out@.push(name)) =~= views(out@).push(name@));
                }
                out.push(name);
            },
            None => {},
        }
    }
    out
}

/// The names of the machine's GPUs, read from the output of the tool that
/// lists them (decoded as UTF-8, invalid sequences replaced); `None` when no
/// tool could be run on this system.
pub fn get_gpus(listing: Option<GpuListing>) -> (names: Vec<String>)
    ensures
        views(names@) == (match listing {
            None => spec_gpu_names(None, Seq::empty()),
            Some(l) => spec_gpu_names(Some(l.tool), utf8_lossy(l.output@)),
        }),
{
    match listing {
        None => {
            let mut v = Vec::new();
            v.push(String::from_str("unknown"));
            proof {
                assert(views(v@) =~= seq!["unknown"@]);
            }
            v
        },
        Some(l) => {
            let text = decode_utf8_lossy(l.output.as_slice());
            let ls = lines(text.as_str());
            let ghost lv = views(ls@);
            let start: usize = if l.tool == GpuTool::VideoControllers && ls.len() >= 2 {
                2
            } else if l.tool == GpuTool::VideoControllers {
                ls.len()
            } else {
                0
            };
            let names = entries_of_lines(l.tool, &ls, start);
            proof {
                if l.tool == GpuTool::VideoControllers {
                    if ls@.len() < 2 {
                        assert(lv.subrange(start as int, lv.len() as int) =~= Seq::<Seq<char>>::empty());
                    } else {
                        assert(lv.subrange(start as int, lv.len() as int) =~= lv.skip(2));
                    }
                } else {
                    assert(lv.subrange(0, lv.len() as int) =~= lv);
                }
            }
            if l.tool == GpuTool::Lspci && names.len() == 0 {
                let mut v = Vec::new();
                v.push(String::from_str("unknown"));
                proof {
                    assert(views(v@) =~= seq!["unknown"@]);
                }
                v
            } else {
                names
            }
        },
    }
}

} // verus!

verus! {

/// The `lspci` reading always names at least one GPU (`unknown` when it finds
/// none), and with no listing the one name is `unknown`.
pub proof fn lemma_gpu_names_fallback(output: Seq<char>)
    ensures
        spec_gpu_names(Some(GpuTool::Lspci), output).len() >= 1,
        spec_gpu_names(None, output) == seq!["unknown"@],
{
}

} // verus!
