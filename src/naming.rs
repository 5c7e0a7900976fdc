//! Case conversion rules for field and variant names (`rename_all`).
use vstd::prelude::*;
use crate::types::text_is;

verus! {

/// A container-level naming strategy.
#[derive(Clone, Copy, Debug, PartialEq, Eq, Structural)]
pub enum RenameRule {
    Lower,
    Upper,
    Pascal,
    Camel,
    Snake,
    ScreamingSnake,
    Kebab,
    ScreamingKebab,
}

pub open spec fn is_lower(c: char) -> bool {
    'a' <= c && c <= 'z'
}

pub open spec fn is_upper(c: char) -> bool {
    'A' <= c && c <= 'Z'
}

/// ASCII upper case of one character; other characters are kept.
pub open spec fn upper(c: char) -> char {
    if is_lower(c) {
        ((c as u8) - 32) as char
    } else {
        c
    }
}

/// ASCII lower case of one character; other characters are kept.
pub open spec fn lower(c: char) -> char {
    if is_upper(c) {
        ((c as u8) + 32) as char
    } else {
        c
    }
}

pub open spec fn dash(c: char) -> char {
    if c == '_' {
        '-'
    } else {
        c
    }
}

/// What the character at `i` of a snake_case field name becomes under `rule`.
pub open spec fn field_piece(rule: RenameRule, s: Seq<char>, i: int) -> Seq<char> {
    let c = s[i];
    match rule {
        RenameRule::Lower | RenameRule::Snake => seq![c],
        RenameRule::Upper | RenameRule::ScreamingSnake => seq![upper(c)],
        RenameRule::Pascal | RenameRule::Camel => if c == '_' {
            Seq::empty()
        } else if i == 0 || s[i - 1] == '_' {
            seq![upper(c)]
        } else {
            seq![c]
        },
        RenameRule::Kebab => seq![dash(c)],
        RenameRule::ScreamingKebab => seq![dash(upper(c))],
    }
}

/// What the character at `i` of a PascalCase variant name becomes under `rule`.
pub open spec fn variant_piece(rule: RenameRule, s: Seq<char>, i: int) -> Seq<char> {
    let c = s[i];
    let word_start = i > 0 && is_upper(c);
    match rule {
        RenameRule::Pascal | RenameRule::Camel => seq![c],
        RenameRule::Lower => seq![lower(c)],
        RenameRule::Upper => seq![upper(c)],
        RenameRule::Snake => if word_start {
            seq!['_', lower(c)]
        } else {
            seq![lower(c)]
        },
        RenameRule::ScreamingSnake => if word_start {
            seq!['_', upper(lower(c))]
        } else {
            seq![upper(lower(c))]
        },
        RenameRule::Kebab => if word_start {
            seq!['-', lower(c)]
        } else {
            seq![lower(c)]
        },
        RenameRule::ScreamingKebab => if word_start {
            seq!['-', upper(lower(c))]
        } else {
            seq![upper(lower(c))]
        },
    }
}

pub open spec fn piece(rule: RenameRule, variant: bool, s: Seq<char>, i: int) -> Seq<char> {
    if variant {
        variant_piece(rule, s, i)
    } else {
        field_piece(rule, s, i)
    }
}

/// The pieces of the first `n` characters of `s`, joined.
pub open spec fn joined(rule: RenameRule, variant: bool, s: Seq<char>, n: int) -> Seq<char>
    decreases n,
{
    if n <= 0 {
        Seq::empty()
    } else {
        joined(rule, variant, s, n - 1) + piece(rule, variant, s, n - 1)
    }
}

pub open spec fn lower_first(s: Seq<char>) -> Seq<char> {
    if s.len() == 0 {
        s
    } else {
        s.update(0, lower(s[0]))
    }
}

/// The name that `rule` makes of `s`: of a snake_case field name, or of a
/// PascalCase variant name when `variant` holds. camelCase is PascalCase
/// with its first character in lower case.
pub open spec fn apply_rule(rule: RenameRule, variant: bool, s: Seq<char>) -> Seq<char> {
    match rule {
        RenameRule::Camel => lower_first(joined(RenameRule::Pascal, variant, s, s.len() as int)),
        _ => joined(rule, variant, s, s.len() as int),
    }
}

/// Relies on str::chars: the characters of `s`, in order.
#[verifier::external_body]
pub(crate) fn chars_of(s: &str) -> (r: Vec<char>)
    ensures
        r@ == s@,
{
    s.chars().collect()
}

/// Relies on String's FromIterator<char>: a string of the characters of `v`, in order.
#[verifier::external_body]
pub(crate) fn string_of(v: &Vec<char>) -> (r: String)
    ensures
        r@ == v@,
{
    v.iter().collect()
}

fn upper_char(c: char) -> (r: char)
    ensures
        r == upper(c),
{
    if 'a' <= c && c <= 'z' {
        ((c as u8) - 32) as char
    } else {
        c
    }
}

fn lower_char(c: char) -> (r: char)
    ensures
        r == lower(c),
{
    if 'A' <= c && c <= 'Z' {
        ((c as u8) + 32) as char
    } else {
        c
    }
}

fn dash_char(c: char) -> (r: char)
    ensures
        r == dash(c),
{
    if c == '_' {
        '-'
    } else {
        c
    }
}

fn push_piece(out: &mut Vec<char>, rule: RenameRule, variant: bool, s: &Vec<char>, i: usize)
    requires
        i < s@.len(),
    ensures
        final(out)@ == old(out)@ + piece(rule, variant, s@, i as int),
{
    let c = s[i];
    let ghost start = out@;
    if variant {
        let word_start = i > 0 && 'A' <= c && c <= 'Z';
        match rule {
            RenameRule::Pascal | RenameRule::Camel => out.push(c),
            RenameRule::Lower => out.push(lower_char(c)),
            RenameRule::Upper => out.push(upper_char(c)),
            RenameRule::Snake => {
                if word_start {
                    out.push('_');
                }
                out.push(lower_char(c));
            },
            RenameRule::ScreamingSnake => {
                if word_start {
                    out.push('_');
                }
                out.push(upper_char(lower_char(c)));
            },
            RenameRule::Kebab => {
                if word_start {
                    out.push('-');
                }
                out.push(lower_char(c));
            },
            RenameRule::ScreamingKebab => {
                if word_start {
                    out.push('-');
                }
                out.push(upper_char(lower_char(c)));
            },
        }
    } else {
        match rule {
            RenameRule::Lower | RenameRule::Snake => out.push(c),
            RenameRule::Upper | RenameRule::ScreamingSnake => out.push(upper_char(c)),
            RenameRule::Pascal | RenameRule::Camel => {
                if c != '_' {
                    if i == 0 || s[i - 1] == '_' {
                        out.push(upper_char(c));
                    } else {
                        out.push(c);
                    }
                }
            },
            RenameRule::Kebab => out.push(dash_char(c)),
            RenameRule::ScreamingKebab => out.push(dash_char(upper_char(c))),
        }
    }
    assert(out@ =~= start + piece(rule, variant, s@, i as int));
}

fn join_pieces(rule: RenameRule, variant: bool, s: &Vec<char>) -> (r: Vec<char>)
    ensures
        r@ == joined(rule, variant, s@, s@.len() as int),
{
    let mut out: Vec<char> = Vec::new();
    let mut i: usize = 0;
    while i < s.len()
        invariant
            i <= s@.len(),
            out@ == joined(rule, variant, s@, i as int),
        decreases s@.len() - i,
    {
        push_piece(&mut out, rule, variant, s, i);
        i = i + 1;
    }
    out
}

/// The name that `rule` makes of `name`, as chars.
fn apply_chars(rule: RenameRule, variant: bool, name: &str) -> (r: String)
    ensures
        r@ == apply_rule(rule, variant, name@),
{
    let s = chars_of(name);
    match rule {
        RenameRule::Camel => {
            let mut out = join_pieces(RenameRule::Pascal, variant, &s);
            if out.len() > 0 {
                let c = lower_char(out[0]);
                out.set(0, c);
            }
            string_of(&out)
        },
        _ => {
            let out = join_pieces(rule, variant, &s);
            string_of(&out)
        },
    }
}

/// The rule that a `rename_all` value names, if any.
pub open spec fn rule_named(s: Seq<char>) -> Option<RenameRule> {
    if s == "lowercase"@ {
        Some(RenameRule::Lower)
    } else if s == "UPPERCASE"@ {
        Some(RenameRule::Upper)
    } else if s == "PascalCase"@ {
        Some(RenameRule::Pascal)
    } else if s == "camelCase"@ {
        Some(RenameRule::Camel)
    } else if s == "snake_case"@ {
        Some(RenameRule::Snake)
    } else if s == "SCREAMING_SNAKE_CASE"@ {
        Some(RenameRule::ScreamingSnake)
    } else if s == "kebab-case"@ {
        Some(RenameRule::Kebab)
    } else if s == "SCREAMING-KEBAB-CASE"@ {
        Some(RenameRule::ScreamingKebab)
    } else {
        None
    }
}

impl RenameRule {
    /// The rule that a `rename_all` value names; `None` for an unknown name.
    pub fn from_name(name: &str) -> (r: Option<RenameRule>)
        ensures
            r == rule_named(name@),
    {
        if text_is(name, "lowercase") {
            Some(RenameRule::Lower)
        } else if text_is(name, "UPPERCASE") {
            Some(RenameRule::Upper)
        } else if text_is(name, "PascalCase") {
            Some(RenameRule::Pascal)
        } else if text_is(name, "camelCase") {
            Some(RenameRule::Camel)
        } else if text_is(name, "snake_case") {
            Some(RenameRule::Snake)
        } else if text_is(name, "SCREAMING_SNAKE_CASE") {
            Some(RenameRule::ScreamingSnake)
        } else if text_is(name, "kebab-case") {
            Some(RenameRule::Kebab)
        } else if text_is(name, "SCREAMING-KEBAB-CASE") {
            Some(RenameRule::ScreamingKebab)
        } else {
            None
        }
    }

    /// The name of a snake_case field under this rule.
    pub fn rename(&self, field: &str) -> (r: String)
        ensures
            r@ == apply_rule(*self, false, field@),
    {
        apply_chars(*self, false, field)
    }

    /// The name of a PascalCase variant under this rule.
    pub fn rename_variant(&self, variant: &str) -> (r: String)
        ensures
            r@ == apply_rule(*self, true, variant@),
    {
        apply_chars(*self, true, variant)
    }
}

} // verus!
