//! Paths relative to the storage root, joined the way a POSIX path is.

use vstd::prelude::*;
use vstd::string::*;

verus! {

/// `base` joined with `p`: an absolute `p` replaces `base`; otherwise `p`
/// is appended, with a separator unless `base` is empty or already ends in one.
pub open spec fn path_join(base: Seq<char>, p: Seq<char>) -> Seq<char> {
    if p.len() > 0 && p[0] == '/' {
        p
    } else if base.len() == 0 || base.last() == '/' {
        base + p
    } else {
        base + seq!['/'] + p
    }
}

/// A path, held as its text.
#[derive(Debug, Clone)]
pub struct FsPath {
    text: String,
}

impl View for FsPath {
    type V = Seq<char>;

    closed spec fn view(&self) -> Seq<char> {
        self.text@
    }
}

impl FsPath {
    pub fn from_str(s: &str) -> (r: FsPath)
        ensures
            r@ == s@,
    {
        FsPath { text: s.to_owned() }
    }

    pub fn as_str(&self) -> (r: &str)
        ensures
            r@ == self@,
    {
        self.text.as_str()
    }

    /// A second path with the same text.
    pub fn duplicate(&self) -> (r: FsPath)
        ensures
            r@ == self@,
    {
        FsPath { text: self.text.as_str().to_owned() }
    }

    /// This path joined with `p`.
    pub fn join(&self, p: &FsPath) -> (r: FsPath)
        ensures
            r@ == path_join(self@, p@),
    {
        let ps = p.text.as_str();
        let bs = self.text.as_str();
        let plen = ps.unicode_len();
        let blen = bs.unicode_len();
        if plen > 0 && ps.get_char(0) == '/' {
            return p.duplicate();
        }
        let mut text = bs.to_owned();
        if blen > 0 && bs.get_char(blen - 1) != '/' {
            proof {
                reveal_strlit("/");
            }
            text.append("/");
        }
        text.append(ps);
        FsPath { text }
    }

    /// Replaces this path with itself joined with `p`.
    pub fn push(&mut self, p: &FsPath)
        ensures
            final(self)@ == path_join(old(self)@, p@),
    {
        *self = self.join(p);
    }
}

} // verus!
