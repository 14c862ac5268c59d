//! Namespace path composition: ACPI's name-resolution grammar.
//!
//! A scope path is absolute when it begins with the root marker `\`;
//! segments are joined with `.`; a leading `^` in a name pops one level of
//! the current scope per marker. [`get_namespace_string`] composes the
//! running scope with a name-holding value, and is pure and total: on a
//! value that holds no string it degrades to returning the current scope
//! unchanged — a deliberate permissive fallback, never a failure.

use vstd::prelude::*;

use crate::value::{string_narrowing, AmlValue, AmlValueView};
use vstd::string::StrSliceExecFns;
use vstd::string::StringExecFns;

verus! {

/// The root marker of an absolute path.
pub open spec fn root_char() -> char {
    '\\'
}

/// The separator between path segments.
pub open spec fn separator_char() -> char {
    '.'
}

/// The parent-scope marker.
pub open spec fn caret_char() -> char {
    '^'
}

/// The position of the last separator of `s`, or -1 when `s` holds none.
pub open spec fn last_separator(s: Seq<char>) -> int
    decreases s.len(),
{
    if s.len() == 0 {
        -1
    } else if s[s.len() - 1] == separator_char() {
        s.len() - 1
    } else {
        last_separator(s.drop_last())
    }
}

/// One level up from scope `s`: the text before its last separator; with no
/// separator left, the bare root for an absolute path (popping at the root
/// stays at the root) and the empty scope otherwise.
pub open spec fn parent_scope(s: Seq<char>) -> Seq<char> {
    if last_separator(s) >= 0 {
        s.subrange(0, last_separator(s))
    } else if s.len() > 0 && s[0] == root_char() {
        seq![root_char()]
    } else {
        Seq::empty()
    }
}

/// `k` levels up from scope `s`.
pub open spec fn parent_scopes(s: Seq<char>, k: nat) -> Seq<char>
    decreases k,
{
    if k == 0 {
        s
    } else {
        parent_scope(parent_scopes(s, (k - 1) as nat))
    }
}

/// How many parent-scope markers `m` begins with.
pub open spec fn leading_carets(m: Seq<char>) -> nat
    decreases m.len(),
{
    if m.len() > 0 && m[0] == caret_char() {
        1 + leading_carets(m.drop_first())
    } else {
        0
    }
}

/// Joins a scope and a relative name with a single separator, omitting the
/// separator only when the scope already ends at the root marker, and
/// yielding the other operand when either is empty.
pub open spec fn joined_path(base: Seq<char>, rest: Seq<char>) -> Seq<char> {
    if base.len() == 0 {
        rest
    } else if rest.len() == 0 {
        base
    } else if base[base.len() - 1] == root_char() {
        base + rest
    } else {
        base + seq![separator_char()] + rest
    }
}

/// The resolution grammar, rule by rule, in order: an empty scope yields
/// the name; an empty name yields the scope; a name that begins with the
/// root marker is already absolute and replaces the scope; otherwise each
/// leading parent-scope marker pops one level of the scope, and what
/// remains of the name is joined to what remains of the scope.
pub open spec fn resolved_path(current: Seq<char>, modifier: Seq<char>) -> Seq<char> {
    if current.len() == 0 {
        modifier
    } else if modifier.len() == 0 {
        current
    } else if modifier[0] == root_char() {
        modifier
    } else {
        let k = leading_carets(modifier);
        joined_path(
            parent_scopes(current, k),
            modifier.subrange(k as int, modifier.len() as int),
        )
    }
}

/// What composing scope `current` with value `modifier_v` yields: the
/// resolution grammar when the value holds a string, and `current`
/// unchanged — the permissive fallback — when it does not.
pub open spec fn namespace_string(current: Seq<char>, modifier_v: AmlValueView) -> Seq<char> {
    match string_narrowing(modifier_v) {
        Ok(m) => resolved_path(current, m),
        Err(_) => current,
    }
}

/// Composes the absolute scope path `current` with the name held by
/// `modifier_v`, per the resolution grammar. Pure and total: it never
/// fails, and a value that holds no string yields `current` unchanged.
pub fn get_namespace_string(current: String, modifier_v: AmlValue) -> (r: String)
    ensures
        r@ == namespace_string(current@, modifier_v@),
{
    let modifier: String = match modifier_v.get_as_string() {
        Ok(s) => s,
        Err(_) => {
            return current;
        },
    };
    let clen: usize = current.as_str().unicode_len();
    let mlen: usize = modifier.as_str().unicode_len();
    if clen == 0 {
        return modifier;
    }
    if mlen == 0 {
        return current;
    }
    if modifier.as_str().get_char(0) == '\\' {
        return modifier;
    }
    let mut k: usize = 0;
    while k < mlen && modifier.as_str().get_char(k) == '^'
        invariant
            k <= mlen,
            mlen == modifier@.len(),
            forall|j: int| 0 <= j < k ==> modifier@[j] == caret_char(),
        decreases mlen - k,
    {
        k = k + 1;
    }
    proof {
        lemma_leading_carets_count(modifier@, k as nat);
    }
    let mut base: String = current;
    let mut popped: usize = 0;
    while popped < k
        invariant
            popped <= k,
            base@ == parent_scopes(current@, popped as nat),
        decreases k - popped,
    {
        base = exec_parent_scope(base);
        popped = popped + 1;
    }
    let rest: String = modifier.as_str().substring_char(k, mlen).to_owned();
    let blen: usize = base.as_str().unicode_len();
    if blen == 0 {
        return rest;
    }
    if rest.as_str().unicode_len() == 0 {
        return base;
    }
    if base.as_str().get_char(blen - 1) == '\\' {
        base.append(rest.as_str());
        return base;
    }
    base.append(".");
    base.append(rest.as_str());
    proof {
        reveal_strlit(".");
        assert(base@ =~= namespace_string(current@, modifier_v@));
    }
    base
}

/// A prefix of `k` parent-scope markers followed by something else is
/// counted exactly by `leading_carets`.
proof fn lemma_leading_carets_count(m: Seq<char>, k: nat)
    requires
        k <= m.len(),
        forall|j: int| 0 <= j < k ==> m[j] == caret_char(),
        k == m.len() || m[k as int] != caret_char(),
    ensures
        leading_carets(m) == k,
    decreases k,
{
    if k == 0 {
    } else {
        assert(m[0] == caret_char());
        lemma_leading_carets_count(m.drop_first(), (k - 1) as nat);
    }
}

/// One level up from a scope, executably.
fn exec_parent_scope(s: String) -> (r: String)
    ensures
        r@ == parent_scope(s@),
{
    let len: usize = s.as_str().unicode_len();
    let mut i: usize = len;
    while i > 0 && s.as_str().get_char(i - 1) != '.'
        invariant
            i <= len,
            len == s@.len(),
            forall|j: int| i <= j < len ==> s@[j] != separator_char(),
        decreases i,
    {
        i = i - 1;
    }
    if i > 0 {
        proof {
            lemma_last_separator_at(s@, i - 1);
        }
        s.as_str().substring_char(0, i - 1).to_owned()
    } else {
        proof {
            lemma_no_separator(s@);
        }
        if len > 0 && s.as_str().get_char(0) == '\\' {
            let root: String = "\\".to_owned();
            proof {
                reveal_strlit("\\");
                assert(root@ =~= seq![root_char()]);
            }
            root
        } else {
            String::new()
        }
    }
}

/// When position `d` holds a separator and nothing after it does,
/// `last_separator` is `d`.
proof fn lemma_last_separator_at(s: Seq<char>, d: int)
    requires
        0 <= d < s.len(),
        s[d] == separator_char(),
        forall|j: int| d < j < s.len() ==> s[j] != separator_char(),
    ensures
        last_separator(s) == d,
    decreases s.len(),
{
    if d == s.len() - 1 {
    } else {
        lemma_last_separator_at(s.drop_last(), d);
    }
}

/// A scope with no separator at all has no last separator.
proof fn lemma_no_separator(s: Seq<char>)
    requires
        forall|j: int| 0 <= j < s.len() ==> s[j] != separator_char(),
    ensures
        last_separator(s) == -1,
    decreases s.len(),
{
    if s.len() > 0 {
        lemma_no_separator(s.drop_last());
    }
}

} // verus!
