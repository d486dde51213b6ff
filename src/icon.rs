use vstd::prelude::*;
use vstd::string::StrSliceExecFns;

verus! {

/// Whether two strings hold the same characters.
pub fn str_equal(a: &str, b: &str) -> (r: bool)
    ensures
        r == (a@ == b@),
{
    let n: usize = a.unicode_len();
    if n != b.unicode_len() {
        return false;
    }
    let mut i: usize = 0;
    while i < n
        invariant
            n == a@.len(),
            n == b@.len(),
            i <= n,
            a@.subrange(0, i as int) == b@.subrange(0, i as int),
        decreases n - i,
    {
        if a.get_char(i) != b.get_char(i) {
            assert(a@[i as int] != b@[i as int]);
            return false;
        }
        assert(a@.subrange(0, i + 1) == a@.subrange(0, i as int).push(a@[i as int]));
        assert(b@.subrange(0, i + 1) == b@.subrange(0, i as int).push(b@[i as int]));
        i = i + 1;
    }
    assert(a@ == a@.subrange(0, n as int));
    assert(b@ == b@.subrange(0, n as int));
    true
}

/// The icon shown in the tray: all clear, updates pending, or an error.
#[derive(Debug, Clone, Copy, PartialEq, Eq, Structural)]
pub enum Icon {
    Check,
    Alert,
    Cross,
}

/// An icon name that names none of the icons.
#[derive(Debug, Clone, PartialEq, Eq)]
pub struct InvalidIconName {
    pub name: String,
}

/// The file stem under which each icon is found in a theme directory.
pub open spec fn icon_name(i: Icon) -> Seq<char> {
    match i {
        Icon::Check => "check"@,
        Icon::Alert => "alert"@,
        Icon::Cross => "cross"@,
    }
}

impl Icon {
    pub fn as_str(&self) -> (r: &'static str)
        ensures
            r@ == icon_name(*self),
    {
        match self {
            Icon::Check => "check",
            Icon::Alert => "alert",
            Icon::Cross => "cross",
        }
    }

    /// Reads an icon back from its name; any other name is refused.
    pub fn parse(s: &str) -> (r: Result<Icon, InvalidIconName>)
        ensures
            r matches Ok(i) ==> icon_name(i) == s@,
            r matches Err(e) ==> e.name@ == s@,
            r is Ok <==> (s@ == "check"@ || s@ == "alert"@ || s@ == "cross"@),
    {
        if str_equal(s, "check") {
            Ok(Icon::Check)
        } else if str_equal(s, "alert") {
            Ok(Icon::Alert)
        } else if str_equal(s, "cross") {
            Ok(Icon::Cross)
        } else {
            Err(InvalidIconName { name: s.to_string() })
        }
    }
}

} // verus!
