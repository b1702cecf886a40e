//! Input and output locations.
//!
//! A location is standard input, standard output, or a file path.  The
//! mapping from path arguments to locations is pure and lives here; the
//! reading and writing themselves are left to the surrounding program.

use vstd::prelude::*;

verus! {

/// One input or output location.
#[derive(Debug)]
pub enum IOType {
    Stdin,
    Stdout,
    File(String),
}

/// `path` is the single dash that names a standard stream.
fn is_dash(path: &str) -> (r: bool)
    ensures
        r <==> path@ == "-"@,
{
    proof {
        reveal_strlit("-");
    }
    if path.unicode_len() == 1 {
        let c = path.get_char(0);
        let r = c == '-';
        proof {
            if r {
                assert(path@ =~= "-"@);
            }
        }
        r
    } else {
        false
    }
}

impl IOType {
    /// Interprets an input path argument: a single dash names standard
    /// input, anything else a file path.
    pub fn input(path: &str) -> (r: IOType)
        ensures
            path@ == "-"@ ==> r is Stdin,
            path@ != "-"@ ==> (r matches IOType::File(p) && p@ == path@),
    {
        if is_dash(path) {
            IOType::Stdin
        } else {
            IOType::File(path.to_owned())
        }
    }

    /// Interprets an output path argument: a single dash names standard
    /// output, anything else a file path.
    pub fn output(path: &str) -> (r: IOType)
        ensures
            path@ == "-"@ ==> r is Stdout,
            path@ != "-"@ ==> (r matches IOType::File(p) && p@ == path@),
    {
        if is_dash(path) {
            IOType::Stdout
        } else {
            IOType::File(path.to_owned())
        }
    }

    /// Derives an input location from this one: a stream stays standard
    /// input, a file path is mapped by `f`.
    pub fn derive_input<F: FnOnce(&String) -> String>(&self, f: F) -> (r: IOType)
        requires
            self matches IOType::File(p) ==> call_requires(f, (&p,)),
        ensures
            self is Stdin ==> r is Stdin,
            self is Stdout ==> r is Stdin,
            self matches IOType::File(p) ==> (r matches IOType::File(q) && call_ensures(
                f,
                (&p,),
                q,
            )),
    {
        match self {
            IOType::Stdin => IOType::Stdin,
            IOType::Stdout => IOType::Stdin,
            IOType::File(p) => IOType::File(f(p)),
        }
    }

    /// Derives an output location from this one: a stream becomes standard
    /// output, a file path is mapped by `f`.
    pub fn derive_output<F: FnOnce(&String) -> String>(&self, f: F) -> (r: IOType)
        requires
            self matches IOType::File(p) ==> call_requires(f, (&p,)),
        ensures
            self is Stdin ==> r is Stdout,
            self is Stdout ==> r is Stdout,
            self matches IOType::File(p) ==> (r matches IOType::File(q) && call_ensures(
                f,
                (&p,),
                q,
            )),
    {
        match self {
            IOType::Stdin => IOType::Stdout,
            IOType::Stdout => IOType::Stdout,
            IOType::File(p) => IOType::File(f(p)),
        }
    }

    /// The location's name as it appears in diagnostics: the stream's name,
    /// or the file path itself.
    pub fn describe(&self) -> (r: String)
        ensures
            self is Stdin ==> r@ == "stdin"@,
            self is Stdout ==> r@ == "stdout"@,
            self matches IOType::File(p) ==> r@ == p@,
    {
        match self {
            IOType::Stdin => "stdin".to_owned(),
            IOType::Stdout => "stdout".to_owned(),
            IOType::File(p) => p.clone(),
        }
    }
}

} // verus!
