//! Bind-mount pairs and the token syntax that names them.

use crate::search::{lemma_absent_has_no_index, lemma_first_at_unique};
use vstd::prelude::*;
use vstd::slice::{slice_subrange, slice_to_vec};
use vstd::string::StringExecFns;

verus! {

/// The byte that parts source from destination in a token (`:`).
pub const SEPARATOR: u8 = 58;

/// A source path exposed at a destination path. Both are absolute; the
/// destination is read inside the isolation root.
#[derive(Debug, Clone, PartialEq, Eq)]
pub struct BindMount {
    pub src: Vec<u8>,
    pub dst: Vec<u8>,
}

/// The two paths of a `BindMount` as byte sequences.
pub struct BindMountView {
    pub src: Seq<u8>,
    pub dst: Seq<u8>,
}

impl View for BindMount {
    type V = BindMountView;

    open spec fn view(&self) -> BindMountView {
        BindMountView { src: self.src@, dst: self.dst@ }
    }
}

/// What a token stands for. Without a separator the token names both paths.
/// With one, the bytes before the first separator are the source and the
/// bytes after it the destination, and neither may be empty.
pub open spec fn parse_token(token: Seq<u8>) -> Option<BindMountView> {
    match token.index_of_first(SEPARATOR) {
        None => Some(BindMountView { src: token, dst: token }),
        Some(i) => if i == 0 || i + 1 == token.len() {
            None
        } else {
            Some(
                BindMountView {
                    src: token.subrange(0, i),
                    dst: token.subrange(i + 1, token.len() as int),
                },
            )
        },
    }
}

/// The message that a rejected token is answered with.
pub open spec fn invalid_format() -> Seq<char> {
    "invalid bind mount format"@
}

impl BindMount {
    /// Reads one token: `source:destination`, or a single path standing for
    /// both.
    pub fn try_from_os_str(s: &[u8]) -> (r: Result<BindMount, String>)
        ensures
            match parse_token(s@) {
                Some(pair) => r matches Ok(b) && b@ == pair,
                None => r matches Err(e) && e@ == invalid_format(),
            },
    {
        let len: usize = s.len();
        match memchr::memchr(SEPARATOR, s) {
            Some(idx) => {
                proof {
                    lemma_first_at_unique(s@, SEPARATOR, idx as int);
                }
                if idx == 0 || idx + 1 == len {
                    return Err(String::from_str("invalid bind mount format"));
                }
                let src = slice_to_vec(slice_subrange(s, 0, idx));
                let dst = slice_to_vec(slice_subrange(s, idx + 1, len));
                Ok(BindMount { src, dst })
            },
            None => {
                proof {
                    lemma_absent_has_no_index(s@, SEPARATOR);
                }
                Ok(BindMount { src: slice_to_vec(s), dst: slice_to_vec(s) })
            },
        }
    }
}

} // verus!
