use vstd::prelude::*;
use crate::error::{append_str, joined, LauncherError};
use crate::text::{chars_of, seq_equal, string_of};

verus! {

/// The pieces of `s` between `+` signs; an empty text is one empty piece.
pub open spec fn split_plus(s: Seq<char>) -> Seq<Seq<char>>
    decreases s.len(),
{
    if s.len() == 0 {
        seq![Seq::empty()]
    } else {
        let p = split_plus(s.drop_last());
        if s.last() == '+' {
            p.push(Seq::empty())
        } else {
            p.update(p.len() - 1, p.last().push(s.last()))
        }
    }
}

/// `c` with an ASCII upper-case letter made lower-case.
pub open spec fn ascii_lower(c: char) -> char {
    if 'A' <= c && c <= 'Z' {
        ((c as u32) + 32) as char
    } else {
        c
    }
}

/// Whether `a` and `b` are equal when ASCII letters are compared without
/// case, as `str::eq_ignore_ascii_case` compares.
pub open spec fn ascii_eq_ignore_case(a: Seq<char>, b: Seq<char>) -> bool {
    a.len() == b.len() && forall|i: int| 0 <= i < a.len() ==> ascii_lower(a[i]) == ascii_lower(b[i])
}

/// Whether `p` names a modifier key: Ctrl, Alt, Shift, Super, Command or
/// Option, in any ASCII case.
pub open spec fn is_modifier(p: Seq<char>) -> bool {
    ascii_eq_ignore_case("Ctrl"@, p) || ascii_eq_ignore_case("Alt"@, p) || ascii_eq_ignore_case(
        "Shift"@,
        p,
    ) || ascii_eq_ignore_case("Super"@, p) || ascii_eq_ignore_case("Command"@, p)
        || ascii_eq_ignore_case("Option"@, p)
}

/// The first index from `i` on, before the last piece, whose piece is not a
/// modifier; -1 when there is none.
pub open spec fn first_bad_modifier(parts: Seq<Seq<char>>, i: int) -> int
    decreases parts.len() - i,
{
    if i < 0 || i >= parts.len() - 1 {
        -1
    } else if !is_modifier(parts[i]) {
        i
    } else {
        first_bad_modifier(parts, i + 1)
    }
}

/// The cause of a refused shortcut, or `None` for a valid one: it must not
/// be empty, must have a key after at least one modifier, and every piece
/// but the last must be a modifier.
pub open spec fn shortcut_problem(s: Seq<char>) -> Option<Seq<char>> {
    let parts = split_plus(s);
    if s.len() == 0 {
        Some("Shortcut cannot be empty"@)
    } else if parts.len() < 2 {
        Some("Shortcut '"@ + s + "' must include at least one modifier key"@)
    } else if first_bad_modifier(parts, 0) >= 0 {
        Some("Invalid modifier key '"@ + parts[first_bad_modifier(parts, 0)] + "' in shortcut '"@ + s
            + "'"@)
    } else {
        None
    }
}

fn lower_ascii(c: char) -> (r: char)
    ensures
        r == ascii_lower(c),
{
    if 'A' <= c && c <= 'Z' {
        let u = (c as u32) + 32;
        let b = u as u8;
        b as char
    } else {
        c
    }
}

/// Whether `a` and `b` are equal but for ASCII case.
fn eq_ignore_case(a: &Vec<char>, b: &Vec<char>) -> (r: bool)
    ensures
        r == ascii_eq_ignore_case(a@, b@),
{
    if a.len() != b.len() {
        return false;
    }
    let mut i: usize = 0;
    while i < a.len()
        invariant
            a@.len() == b@.len(),
            i <= a@.len(),
            forall|j: int| 0 <= j < i ==> ascii_lower(a@[j]) == ascii_lower(b@[j]),
        decreases a.len() - i,
    {
        if lower_ascii(a[i]) != lower_ascii(b[i]) {
            return false;
        }
        i = i + 1;
    }
    true
}

fn modifier(p: &Vec<char>) -> (r: bool)
    ensures
        r == is_modifier(p@),
{
    eq_ignore_case(&chars_of("Ctrl"), p) || eq_ignore_case(&chars_of("Alt"), p) || eq_ignore_case(
        &chars_of("Shift"),
        p,
    ) || eq_ignore_case(&chars_of("Super"), p) || eq_ignore_case(&chars_of("Command"), p)
        || eq_ignore_case(&chars_of("Option"), p)
}

/// The pieces of `s` between `+` signs.
pub fn split_shortcut(s: &str) -> (r: Vec<Vec<char>>)
    ensures
        r@.len() == split_plus(s@).len(),
        forall|i: int| 0 <= i < r@.len() ==> r@[i]@ == split_plus(s@)[i],
{
    let cs = chars_of(s);
    let mut parts: Vec<Vec<char>> = Vec::new();
    let mut cur: Vec<char> = Vec::new();
    let mut i: usize = 0;
    while i < cs.len()
        invariant
            i <= cs@.len(),
            parts@.len() + 1 == split_plus(cs@.subrange(0, i as int)).len(),
            forall|j: int| 0 <= j < parts@.len() ==> parts@[j]@ == split_plus(cs@.subrange(0, i as int))[j],
            cur@ == split_plus(cs@.subrange(0, i as int)).last(),
        decreases cs.len() - i,
    {
        let ghost pre = cs@.subrange(0, i + 1);
        assert(pre.drop_last() =~= cs@.subrange(0, i as int));
        if cs[i] == '+' {
            let done = cur;
            parts.push(done);
            cur = Vec::new();
            assert(cur@ =~= Seq::<char>::empty());
        } else {
            cur.push(cs[i]);
        }
        i = i + 1;
    }
    parts.push(cur);
    assert(cs@.subrange(0, cs@.len() as int) =~= cs@);
    parts
}

/// Checks the form of a shortcut such as `Ctrl+K`; see `shortcut_problem`.
/// A refusal is a hotkey registration error.
pub fn validate_shortcut(shortcut: &str) -> (r: Result<(), LauncherError>)
    ensures
        shortcut_problem(shortcut@) is None ==> r is Ok,
        shortcut_problem(shortcut@) is Some ==> r is Err && r->Err_0 is HotkeyRegistrationError
            && r->Err_0->HotkeyRegistrationError_0@ == shortcut_problem(shortcut@)->0,
{
    if shortcut.is_empty() {
        return Err(LauncherError::HotkeyRegistrationError("Shortcut cannot be empty".to_owned()));
    }
    let parts = split_shortcut(shortcut);
    let ghost ps = split_plus(shortcut@);
    if parts.len() < 2 {
        let mut m = joined("Shortcut '", shortcut);
        append_str(&mut m, "' must include at least one modifier key");
        return Err(LauncherError::HotkeyRegistrationError(m));
    }
    let mut i: usize = 0;
    while i < parts.len() - 1
        invariant
            parts@.len() == ps.len(),
            ps == split_plus(shortcut@),
            shortcut@.len() > 0,
            ps.len() >= 2,
            forall|j: int| 0 <= j < parts@.len() ==> parts@[j]@ == ps[j],
            i <= parts@.len() - 1,
            first_bad_modifier(ps, 0) == first_bad_modifier(ps, i as int),
        decreases parts.len() - 1 - i,
    {
        if !modifier(&parts[i]) {
            assert(first_bad_modifier(ps, i as int) == i);
            let mut m = joined("Invalid modifier key '", string_of(&parts[i]).as_str());
            append_str(&mut m, "' in shortcut '");
            append_str(&mut m, shortcut);
            append_str(&mut m, "'");
            return Err(LauncherError::HotkeyRegistrationError(m));
        }
        i = i + 1;
    }
    assert(first_bad_modifier(ps, i as int) == -1);
    Ok(())
}

/// `s` without any element equal to `x`.
pub open spec fn without(s: Seq<Seq<char>>, x: Seq<char>) -> Seq<Seq<char>>
    decreases s.len(),
{
    if s.len() == 0 {
        s
    } else if s.last() == x {
        without(s.drop_last(), x)
    } else {
        without(s.drop_last(), x).push(s.last())
    }
}

/// The shortcuts registered with the system, in registration order.
pub struct ShortcutList {
    shortcuts: Vec<String>,
}

impl ShortcutList {
    pub closed spec fn view(&self) -> Seq<Seq<char>> {
        self.shortcuts@.map_values(|s: String| s@)
    }

    /// No shortcut.
    pub fn new() -> (r: ShortcutList)
        ensures
            r.view() == Seq::<Seq<char>>::empty(),
    {
        let r = ShortcutList { shortcuts: Vec::new() };
        assert(r.view() =~= Seq::<Seq<char>>::empty());
        r
    }

    /// Whether `shortcut` is in the list.
    pub fn contains(&self, shortcut: &str) -> (r: bool)
        ensures
            r == self.view().contains(shortcut@),
    {
        let k = chars_of(shortcut);
        let mut i: usize = 0;
        while i < self.shortcuts.len()
            invariant
                i <= self.shortcuts@.len(),
                k@ == shortcut@,
                forall|j: int| 0 <= j < i ==> self.view()[j] != shortcut@,
            decreases self.shortcuts.len() - i,
        {
            if seq_equal(&chars_of(self.shortcuts[i].as_str()), &k) {
                assert(self.view()[i as int] == shortcut@);
                return true;
            }
            i = i + 1;
        }
        false
    }

    /// Adds a shortcut that is not in the list yet.
    pub fn record(&mut self, shortcut: String)
        ensures
            old(self).view().contains(shortcut@) ==> final(self).view() == old(self).view(),
            !old(self).view().contains(shortcut@) ==> final(self).view() == old(self).view().push(shortcut@),
    {
        if !self.contains(shortcut.as_str()) {
            let ghost before = self.view();
            let ghost k = shortcut@;
            self.shortcuts.push(shortcut);
            assert(self.view() =~= before.push(k));
        }
    }

    /// Removes every occurrence of `shortcut`.
    pub fn forget(&mut self, shortcut: &str)
        ensures
            final(self).view() == without(old(self).view(), shortcut@),
    {
        let ghost all = self.view();
        let k = chars_of(shortcut);
        let mut kept: Vec<String> = Vec::new();
        let mut i: usize = 0;
        while i < self.shortcuts.len()
            invariant
                i <= self.shortcuts@.len(),
                all == self.view(),
                k@ == shortcut@,
                kept@.map_values(|s: String| s@) == without(all.subrange(0, i as int), shortcut@),
            decreases self.shortcuts.len() - i,
        {
            let ghost pre = all.subrange(0, i + 1);
            assert(pre.drop_last() =~= all.subrange(0, i as int));
            let ghost before = kept@.map_values(|s: String| s@);
            if !seq_equal(&chars_of(self.shortcuts[i].as_str()), &k) {
                kept.push(self.shortcuts[i].clone());
                assert(kept@.map_values(|s: String| s@) =~= before.push(all[i as int]));
            }
            i = i + 1;
        }
        assert(all.subrange(0, all.len() as int) =~= all);
        self.shortcuts = kept;
    }

    /// The registered shortcuts, in order.
    pub fn list(&self) -> (r: Vec<String>)
        ensures
            r@.map_values(|s: String| s@) == self.view(),
    {
        let mut r: Vec<String> = Vec::new();
        let mut i: usize = 0;
        while i < self.shortcuts.len()
            invariant
                i <= self.shortcuts@.len(),
                r@.map_values(|s: String| s@) == self.view().subrange(0, i as int),
            decreases self.shortcuts.len() - i,
        {
            let ghost before = r@.map_values(|s: String| s@);
            r.push(self.shortcuts[i].clone());
            assert(r@.map_values(|s: String| s@) =~= before.push(self.view()[i as int]));
            assert(self.view().subrange(0, i + 1) =~= self.view().subrange(0, i as int).push(self.view()[i as int]));
            i = i + 1;
        }
        assert(self.view().subrange(0, self.view().len() as int) =~= self.view());
        r
    }
}

} // verus!
