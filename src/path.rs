//! Filesystem paths that are known to be absolute.
use vstd::prelude::*;

verus! {

/// A path is absolute when it starts at the filesystem root.
pub open spec fn is_absolute_path(s: Seq<char>) -> bool {
    s.len() > 0 && s[0] == '/'
}

/// Why a string was refused as an absolute path.
#[derive(Clone, Copy, Debug, PartialEq, Eq, Structural)]
pub enum PathError {
    /// The string is empty.
    Empty,
    /// The string does not start at the filesystem root.
    NotAbsolute,
}

/// A non-empty, absolute filesystem path. The only way to make one is
/// [`AbsolutePathBuf::parse`].
#[derive(Debug)]
pub struct AbsolutePathBuf {
    path: String,
}

impl View for AbsolutePathBuf {
    type V = Seq<char>;

    closed spec fn view(&self) -> Seq<char> {
        self.path@
    }
}

impl AbsolutePathBuf {
    #[verifier::type_invariant]
    spec fn inv(&self) -> bool {
        is_absolute_path(self.path@)
    }

    /// Validates `s`: an empty string is `Empty`, one that does not start with
    /// `/` is `NotAbsolute`, any other becomes a path holding `s` unchanged.
    pub fn parse(s: String) -> (r: Result<AbsolutePathBuf, PathError>)
        ensures
            s@.len() == 0 <==> r == Err::<AbsolutePathBuf, PathError>(PathError::Empty),
            s@.len() > 0 && s@[0] != '/' <==> r == Err::<AbsolutePathBuf, PathError>(
                PathError::NotAbsolute,
            ),
            is_absolute_path(s@) <==> r is Ok,
            r matches Ok(p) ==> p@ == s@,
    {
        if s.as_str().is_empty() {
            return Err(PathError::Empty);
        }
        if s.as_str().get_char(0) != '/' {
            return Err(PathError::NotAbsolute);
        }
        Ok(AbsolutePathBuf { path: s })
    }

    /// The path as text.
    pub fn as_str(&self) -> (r: &str)
        ensures
            r@ == self@,
            is_absolute_path(r@),
    {
        proof {
            use_type_invariant(self);
        }
        self.path.as_str()
    }
}

} // verus!
