//! The stored form of a rule set: the compact JSON text of the bundle
//! `{"rules":[{"method":…,"path":…,"roles":[…]},…]}`, with object keys in
//! sorted order and strings escaped as JSON requires (`"` and `\` by a
//! backslash, the controls `\b \t \n \f \r` by their short forms, the other
//! controls below U+0020 as `\u00xx` in lowercase hex, everything else as is).
//! The SHA-256 of this text is the rule set's recorded hash.

use vstd::prelude::*;
use vstd::string::{StrSliceExecFns, StringExecFns};
use crate::crypto::hex_digit;
use crate::policy::PolicyRule;

verus! {

/// The JSON text that stands for character `c` inside a string.
pub open spec fn json_char(c: char) -> Seq<char> {
    if c == '"' {
        seq!['\\', '"']
    } else if c == '\\' {
        seq!['\\', '\\']
    } else if c as u32 == 8 {
        seq!['\\', 'b']
    } else if c == '\t' {
        seq!['\\', 't']
    } else if c == '\n' {
        seq!['\\', 'n']
    } else if c as u32 == 12 {
        seq!['\\', 'f']
    } else if c == '\r' {
        seq!['\\', 'r']
    } else if (c as u32) < 0x20 {
        seq!['\\', 'u', '0', '0', hex_digit(((c as u32) / 16) as u8), hex_digit(((c as u32) % 16) as u8)]
    } else {
        seq![c]
    }
}

/// The escaped characters of `s`, without the quotes.
pub open spec fn json_chars(s: Seq<char>) -> Seq<char>
    decreases s.len(),
{
    if s.len() == 0 {
        Seq::empty()
    } else {
        json_chars(s.drop_last()) + json_char(s.last())
    }
}

/// The JSON string literal of `s`.
pub open spec fn json_str(s: Seq<char>) -> Seq<char> {
    seq!['"'] + json_chars(s) + seq!['"']
}

/// The JSON string literals of `ss`, separated by commas.
pub open spec fn json_str_list(ss: Seq<Seq<char>>) -> Seq<char>
    decreases ss.len(),
{
    if ss.len() == 0 {
        Seq::empty()
    } else if ss.len() == 1 {
        json_str(ss[0])
    } else {
        json_str_list(ss.drop_last()) + seq![','] + json_str(ss.last())
    }
}

/// The views of `v`'s strings.
pub open spec fn string_views(v: Seq<String>) -> Seq<Seq<char>> {
    v.map_values(|s: String| s@)
}

/// The JSON object of rule `r`.
pub open spec fn rule_json(r: PolicyRule) -> Seq<char> {
    "{\"method\":"@ + json_str(r.method@) + ",\"path\":"@ + json_str(r.path@) + ",\"roles\":["@
        + json_str_list(string_views(r.roles@)) + "]}"@
}

/// The JSON objects of `rules`, separated by commas.
pub open spec fn rule_list_json(rules: Seq<PolicyRule>) -> Seq<char>
    decreases rules.len(),
{
    if rules.len() == 0 {
        Seq::empty()
    } else if rules.len() == 1 {
        rule_json(rules[0])
    } else {
        rule_list_json(rules.drop_last()) + seq![','] + rule_json(rules.last())
    }
}

/// The stored JSON text of the bundle of `rules`.
pub open spec fn bundle_json(rules: Seq<PolicyRule>) -> Seq<char> {
    "{\"rules\":["@ + rule_list_json(rules) + "]}"@
}

/// Every character of a string is written: one more character adds exactly
/// its JSON text at the end.
pub proof fn lemma_json_chars_keep_every_char(s: Seq<char>, c: char)
    ensures
        json_chars(s.push(c)) == json_chars(s) + json_char(c),
        json_chars(Seq::empty()) == Seq::<char>::empty(),
{
    assert(s.push(c).drop_last() =~= s);
}

/// Every role of a rule is written: the list of one string is that string,
/// and one more string adds a comma and exactly its JSON literal at the end,
/// whatever came before.
pub proof fn lemma_role_list_keeps_every_role(ss: Seq<Seq<char>>, s: Seq<char>)
    ensures
        json_str_list(Seq::empty()) == Seq::<char>::empty(),
        json_str_list(seq![s]) == json_str(s),
        ss.len() > 0 ==> json_str_list(ss.push(s)) == json_str_list(ss) + seq![','] + json_str(s),
{
    assert(ss.push(s).drop_last() =~= ss);
    assert(seq![s][0] == s);
}

/// Every rule of a bundle is written: the list of one rule is that rule's
/// object, and one more rule adds a comma and exactly its object at the end.
pub proof fn lemma_rule_list_keeps_every_rule(rules: Seq<PolicyRule>, r: PolicyRule)
    ensures
        rule_list_json(Seq::empty()) == Seq::<char>::empty(),
        rule_list_json(seq![r]) == rule_json(r),
        rules.len() > 0 ==> rule_list_json(rules.push(r)) == rule_list_json(rules) + seq![','] + rule_json(r),
{
    assert(rules.push(r).drop_last() =~= rules);
    assert(seq![r][0] == r);
}

/// The roles of a rule are its role list: the written role list of a rule
/// with one more role is the earlier list, a comma and that role's literal.
pub proof fn lemma_rule_roles_keep_every_role(roles: Seq<String>, s: String)
    ensures
        roles.len() > 0 ==> json_str_list(string_views(roles.push(s)))
            == json_str_list(string_views(roles)) + seq![','] + json_str(s@),
{
    assert(string_views(roles.push(s)) =~= string_views(roles).push(s@));
    lemma_role_list_keeps_every_role(string_views(roles), s@);
}

/// Append `lit` to `out`.
fn append_lit(out: &mut String, lit: &str)
    ensures
        final(out)@ == old(out)@ + lit@,
{
    out.append(lit);
}

/// Append the JSON text of character `i` of `s` to `out`.
fn append_json_char(out: &mut String, s: &str, i: usize)
    requires
        i < s@.len() <= usize::MAX,
    ensures
        final(out)@ == old(out)@ + json_char(s@[i as int]),
{
    let c = s.get_char(i);
    let code: u32 = c as u32;
    proof {
        reveal_strlit("\\\"");
        reveal_strlit("\\\\");
        reveal_strlit("\\b");
        reveal_strlit("\\t");
        reveal_strlit("\\n");
        reveal_strlit("\\f");
        reveal_strlit("\\r");
        reveal_strlit("\\u00");
        reveal_strlit("0123456789abcdef");
    }
    if c == '"' {
        append_lit(out, "\\\"");
    } else if c == '\\' {
        append_lit(out, "\\\\");
    } else if code == 8 {
        append_lit(out, "\\b");
    } else if c == '\t' {
        append_lit(out, "\\t");
    } else if c == '\n' {
        append_lit(out, "\\n");
    } else if code == 12 {
        append_lit(out, "\\f");
    } else if c == '\r' {
        append_lit(out, "\\r");
    } else if code < 32 {
        let hi: usize = (code / 16) as usize;
        let lo: usize = (code % 16) as usize;
        let digits = "0123456789abcdef";
        append_lit(out, "\\u00");
        append_lit(out, digits.substring_char(hi, hi + 1));
        append_lit(out, digits.substring_char(lo, lo + 1));
        assert(digits@[hi as int] == hex_digit(hi as u8));
        assert(digits@[lo as int] == hex_digit(lo as u8));
    } else {
        append_lit(out, s.substring_char(i, i + 1));
    }
}

/// Append the JSON string literal of `s` to `out`.
fn append_json_str(out: &mut String, s: &str)
    ensures
        final(out)@ == old(out)@ + json_str(s@),
{
    proof {
        reveal_strlit("\"");
    }
    append_lit(out, "\"");
    let ghost start = out@;
    let n = s.unicode_len();
    let mut i: usize = 0;
    while i < n
        invariant
            n == s@.len(),
            0 <= i <= n,
            out@ == start + json_chars(s@.subrange(0, i as int)),
        decreases n - i,
    {
        append_json_char(out, s, i);
        assert(s@.subrange(0, i + 1).drop_last() =~= s@.subrange(0, i as int));
        i = i + 1;
    }
    assert(s@.subrange(0, n as int) =~= s@);
    append_lit(out, "\"");
    assert(out@ =~= old(out)@ + json_str(s@));
}

/// Append the JSON string literals of `v`, separated by commas, to `out`.
fn append_json_str_list(out: &mut String, v: &Vec<String>)
    ensures
        final(out)@ == old(out)@ + json_str_list(string_views(v@)),
{
    proof {
        reveal_strlit(",");
    }
    let mut i: usize = 0;
    while i < v.len()
        invariant
            0 <= i <= v@.len(),
            out@ == old(out)@ + json_str_list(string_views(v@.subrange(0, i as int))),
        decreases v@.len() - i,
    {
        if i > 0 {
            append_lit(out, ",");
        }
        append_json_str(out, v[i].as_str());
        proof {
            let prev = string_views(v@.subrange(0, i as int));
            let next = string_views(v@.subrange(0, i + 1));
            assert(next.drop_last() =~= prev);
            assert(next.last() == v@[i as int]@);
            reveal_strlit(",");
            assert(","@ =~= seq![',']);
            if i == 0 {
                assert(next.len() == 1);
                assert(next[0] == v@[0]@);
                assert(prev =~= Seq::<Seq<char>>::empty());
                assert(json_str_list(next) == json_str(v@[0]@));
            } else {
                assert(json_str_list(next) == json_str_list(prev) + seq![','] + json_str(v@[i as int]@));
            }
        }
        i = i + 1;
    }
    assert(v@.subrange(0, v@.len() as int) =~= v@);
}

/// Append the JSON object of rule `r` to `out`.
fn append_rule_json(out: &mut String, r: &PolicyRule)
    ensures
        final(out)@ == old(out)@ + rule_json(*r),
{
    append_lit(out, "{\"method\":");
    append_json_str(out, r.method.as_str());
    append_lit(out, ",\"path\":");
    append_json_str(out, r.path.as_str());
    append_lit(out, ",\"roles\":[");
    append_json_str_list(out, &r.roles);
    append_lit(out, "]}");
    assert(out@ =~= old(out)@ + rule_json(*r));
}

/// The stored JSON text of the bundle of `rules`.
pub fn bundle_text(rules: &Vec<PolicyRule>) -> (t: String)
    ensures
        t@ == bundle_json(rules@),
{
    proof {
        reveal_strlit(",");
    }
    let mut out = String::new();
    append_lit(&mut out, "{\"rules\":[");
    let ghost start = out@;
    let mut i: usize = 0;
    while i < rules.len()
        invariant
            0 <= i <= rules@.len(),
            out@ == start + rule_list_json(rules@.subrange(0, i as int)),
        decreases rules@.len() - i,
    {
        if i > 0 {
            append_lit(&mut out, ",");
        }
        append_rule_json(&mut out, &rules[i]);
        proof {
            let prev = rules@.subrange(0, i as int);
            let next = rules@.subrange(0, i + 1);
            assert(next.drop_last() =~= prev);
            assert(next.last() == rules@[i as int]);
            reveal_strlit(",");
            assert(","@ =~= seq![',']);
            if i == 0 {
                assert(next.len() == 1);
                assert(next[0] == rules@[0]);
                assert(rule_list_json(next) == rule_json(rules@[0]));
                assert(rule_list_json(prev) =~= Seq::<char>::empty());
            } else {
                assert(rule_list_json(next) == rule_list_json(prev) + seq![','] + rule_json(rules@[i as int]));
            }
        }
        i = i + 1;
    }
    assert(rules@.subrange(0, rules@.len() as int) =~= rules@);
    append_lit(&mut out, "]}");
    assert(out@ =~= bundle_json(rules@));
    out
}

} // verus!
