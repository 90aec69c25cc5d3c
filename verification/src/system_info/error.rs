use vstd::prelude::*;
use vstd::std_specs::convert::FromSpecImpl;

verus! {

/// `std::io::Error`, carried through as an opaque value.
#[verifier::external_type_specification]
#[verifier::external_body]
pub struct ExIoError(std::io::Error);

/// Errors while gathering system information.
#[derive(Debug)]
pub enum SystemError {
    /// None of the environment variables named by the label is set.
    MissingEnv(&'static str),
    /// An I/O operation failed.
    Io(std::io::Error),
}

impl From<std::io::Error> for SystemError {
    fn from(err: std::io::Error) -> (r: Self) {
        SystemError::Io(err)
    }
}

impl FromSpecImpl<std::io::Error> for SystemError {
    open spec fn obeys_from_spec() -> bool {
        true
    }

    open spec fn from_spec(err: std::io::Error) -> Self {
        SystemError::Io(err)
    }
}

/// The text of an I/O error, as its `Display` writes it.
/// The contract says nothing of the text: it comes from the operating system.
#[verifier::external_body]
fn io_error_text(err: &std::io::Error) -> String {
    format!("{err}")
}

/// The message of an I/O error whose text is `text`.
pub fn io_message(text: &str) -> (m: String)
    ensures
        m@ == "IO error: "@ + text@,
{
    String::from_str("IO error: ").concat(text)
}

impl SystemError {
    /// The message shown for this error.
    pub fn message(&self) -> (m: String)
        ensures
            self matches SystemError::MissingEnv(var) ==> m@ == "Missing environment variable: "@ + var@,
            self is Io ==> m@.len() >= "IO error: "@.len() && m@.subrange(0, "IO error: "@.len() as int) == "IO error: "@,
    {
        match self {
            SystemError::MissingEnv(var) => {
                let m = String::from_str("Missing environment variable: ");
                m.concat(var)
            },
            SystemError::Io(err) => {
                let text = io_error_text(err);
                let r = io_message(text.as_str());
                proof {
                    assert(r@.subrange(0, "IO error: "@.len() as int) =~= "IO error: "@);
                }
                r
            },
        }
    }
}

} // verus!
