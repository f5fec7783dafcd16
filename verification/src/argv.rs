//! The argument vector handed to the image-replacement call.
//!
//! The replacement primitive takes its arguments in the C calling
//! convention: one NUL-terminated byte string per argument. A Rust string
//! can be marshaled that way only if its UTF-8 encoding holds no interior
//! NUL byte, and the vector itself must be non-empty, since its first
//! element names the program to run. `Argv` holds a vector that satisfies
//! both conditions; its constructor is the only way to build one, and it
//! reports exactly which condition failed.

use vstd::prelude::*;
use vstd::string::StrSliceExecFns;
use vstd::utf8::encode_utf8;

verus! {

/// A sequence of characters whose UTF-8 encoding holds no NUL byte, so it
/// can be carried as a NUL-terminated C string.
pub open spec fn nul_free(s: Seq<char>) -> bool {
    !encode_utf8(s).contains(0u8)
}

/// A well-formed argument vector: non-empty, every element marshalable as a
/// C string.
pub open spec fn argv_well_formed(args: Seq<Seq<char>>) -> bool {
    &&& args.len() >= 1
    &&& forall|i: int| 0 <= i < args.len() ==> nul_free(#[trigger] args[i])
}

/// Why a vector of strings cannot serve as an argument vector.
#[derive(Debug, Clone, Copy, PartialEq, Eq)]
pub enum ArgvError {
    /// The vector holds no element at all, so there is no program to run.
    Empty,
    /// The element at this index embeds a NUL byte and cannot be carried as
    /// a C string. The index is the first such position.
    InteriorNul(usize),
}

/// An argument vector fit for the image-replacement call: non-empty, with
/// no NUL byte inside any element.
#[derive(Debug)]
pub struct Argv {
    args: Vec<String>,
}

impl View for Argv {
    type V = Seq<Seq<char>>;

    closed spec fn view(&self) -> Seq<Seq<char>> {
        self.args.deep_view()
    }
}

/// Whether the UTF-8 encoding of `s` holds a NUL byte.
fn has_interior_nul(s: &str) -> (found: bool)
    ensures
        found == encode_utf8(s@).contains(0u8),
{
    let bytes = s.as_bytes_vec();
    let n = bytes.len();
    let mut j: usize = 0;
    while j < n
        invariant
            n == bytes@.len(),
            bytes@ == encode_utf8(s@),
            j <= n,
            forall|k: int| 0 <= k < j ==> bytes@[k] != 0u8,
        decreases n - j,
    {
        if bytes[j] == 0u8 {
            assert(bytes@.contains(0u8)) by {
                assert(bytes@[j as int] == 0u8);
            }
            return true;
        }
        j = j + 1;
    }
    false
}

impl Argv {
    #[verifier::type_invariant]
    closed spec fn wf(&self) -> bool {
        argv_well_formed(self.view())
    }

    /// Validate a vector of strings as an argument vector. Succeeds exactly
    /// on well-formed input; an empty vector is reported as such, and
    /// otherwise the first element embedding a NUL byte is named.
    pub fn new(args: Vec<String>) -> (r: Result<Argv, ArgvError>)
        ensures
            args.deep_view().len() == 0 ==> r == Result::<Argv, ArgvError>::Err(
                ArgvError::Empty,
            ),
            argv_well_formed(args.deep_view()) ==> (r matches Ok(a) && a@ == args.deep_view()),
            args.deep_view().len() >= 1 && !argv_well_formed(args.deep_view()) ==> (r matches Err(
                ArgvError::InteriorNul(i),
            ) && 0 <= i < args.deep_view().len() && !nul_free(args.deep_view()[i as int])
                && (forall|k: int| 0 <= k < i ==> nul_free(#[trigger] args.deep_view()[k]))),
    {
        if args.len() == 0 {
            return Err(ArgvError::Empty);
        }
        let n = args.len();
        let mut i: usize = 0;
        while i < n
            invariant
                n == args@.len(),
                i <= n,
                forall|k: int| 0 <= k < i ==> nul_free(#[trigger] args.deep_view()[k]),
            decreases n - i,
        {
            if has_interior_nul(args[i].as_str()) {
                assert(!nul_free(args.deep_view()[i as int]));
                return Err(ArgvError::InteriorNul(i));
            }
            i = i + 1;
        }
        Ok(Argv { args })
    }

    /// How many arguments the vector holds; at least one.
    pub fn len(&self) -> (n: usize)
        ensures
            n == self@.len(),
            n >= 1,
    {
        proof {
            use_type_invariant(self);
        }
        self.args.len()
    }

    /// The argument at `i`, or nothing when `i` is out of range.
    pub fn arg(&self, i: usize) -> (r: Option<&String>)
        ensures
            i < self@.len() ==> (r matches Some(s) && s@ == self@[i as int]),
            i >= self@.len() ==> r is None,
    {
        if i < self.args.len() {
            Some(&self.args[i])
        } else {
            None
        }
    }

    /// Marshal the vector for the C calling convention: each element's
    /// UTF-8 bytes with one NUL byte appended as terminator.
    pub fn to_nul_terminated(&self) -> (out: Vec<Vec<u8>>)
        ensures
            out@.len() == self@.len(),
            out@.len() >= 1,
            forall|i: int|
                0 <= i < out@.len() ==> #[trigger] out@[i]@ == encode_utf8(self@[i]).push(0u8),
    {
        proof {
            use_type_invariant(self);
        }
        let n = self.args.len();
        let mut out: Vec<Vec<u8>> = Vec::new();
        let mut i: usize = 0;
        while i < n
            invariant
                n == self.args@.len(),
                i <= n,
                out@.len() == i,
                forall|k: int|
                    0 <= k < i ==> #[trigger] out@[k]@ == encode_utf8(self@[k]).push(0u8),
            decreases n - i,
        {
            let mut bytes = self.args[i].as_str().as_bytes_vec();
            bytes.push(0u8);
            out.push(bytes);
            i = i + 1;
        }
        out
    }
}

/// Each buffer that `to_nul_terminated` yields from a well-formed argument
/// vector is a valid C string: it ends in a NUL byte, and no earlier byte
/// is NUL, so the terminator marks exactly the end of the argument.
pub proof fn lemma_nul_terminated_shape(args: Seq<Seq<char>>, i: int)
    requires
        argv_well_formed(args),
        0 <= i < args.len(),
    ensures
        encode_utf8(args[i]).push(0u8).len() >= 1,
        encode_utf8(args[i]).push(0u8).last() == 0u8,
        forall|j: int|
            0 <= j < encode_utf8(args[i]).push(0u8).len() - 1 ==> encode_utf8(args[i]).push(
                0u8,
            )[j] != 0u8,
{
    let b = encode_utf8(args[i]);
    assert(nul_free(args[i]));
    assert forall|j: int| 0 <= j < b.push(0u8).len() - 1 implies b.push(0u8)[j] != 0u8 by {
        assert(b.push(0u8)[j] == b[j]);
        if b[j] == 0u8 {
            assert(b.contains(0u8));
        }
    }
}

} // verus!
