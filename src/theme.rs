use vstd::prelude::*;
use vstd::string::StrSliceExecFns;

verus! {

/// A name made only of lowercase ASCII letters, and at least one of them:
/// safe to join onto a directory path.
pub open spec fn is_theme_name(s: Seq<char>) -> bool {
    &&& s.len() > 0
    &&& forall|i: int| 0 <= i < s.len() ==> 'a' <= #[trigger] s[i] <= 'z'
}

/// The name of an icon theme, checked once when it is read from the
/// configuration; only `Theme::parse` and `Theme::default` make one.
#[derive(Debug, PartialEq)]
pub struct Theme {
    s: String,
}

/// A theme name holding a character other than a lowercase ASCII letter.
#[derive(Debug, Clone, PartialEq, Eq)]
pub struct InvalidTheme {
    pub name: String,
}

impl View for Theme {
    type V = Seq<char>;

    closed spec fn view(&self) -> Seq<char> {
        self.s@
    }
}

impl Theme {
    #[verifier::type_invariant]
    spec fn inv(&self) -> bool {
        is_theme_name(self.s@)
    }

    pub fn parse(s: &str) -> (r: Result<Theme, InvalidTheme>)
        ensures
            r is Ok <==> is_theme_name(s@),
            r matches Ok(t) ==> t@ == s@,
            r matches Err(e) ==> e.name@ == s@,
    {
        let n: usize = s.unicode_len();
        let mut ok: bool = n > 0;
        let mut i: usize = 0;
        while i < n
            invariant
                n == s@.len(),
                i <= n,
                ok == (n > 0 && forall|j: int| 0 <= j < i ==> 'a' <= #[trigger] s@[j] <= 'z'),
            decreases n - i,
        {
            let c = s.get_char(i);
            if !('a' <= c && c <= 'z') {
                ok = false;
            }
            i = i + 1;
        }
        if ok {
            Ok(Theme { s: s.to_string() })
        } else {
            Err(InvalidTheme { name: s.to_string() })
        }
    }

    pub fn as_str(&self) -> (r: &str)
        ensures
            r@ == self@,
            is_theme_name(r@),
    {
        proof {
            use_type_invariant(self);
        }
        self.s.as_str()
    }
}

impl Clone for Theme {
    fn clone(&self) -> (r: Theme)
        ensures
            r@ == self@,
    {
        proof {
            use_type_invariant(self);
        }
        Theme { s: self.s.clone() }
    }
}

impl Default for Theme {
    fn default() -> (r: Theme)
        ensures
            r@ == "default"@,
    {
        proof {
            reveal_strlit("default");
        }
        Theme { s: "default".to_string() }
    }
}

} // verus!
