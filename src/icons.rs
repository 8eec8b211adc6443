//! Remote-host icons: rules from `prefix|icon[|r,g,b]` overrides and a
//! built-in table, resolved by first literal prefix match.
use vstd::prelude::*;
use vstd::string::StringExecFns;
use crate::text::{
    byte_of, contains, decimal, head, is_prefix, parse_byte, split_first, starts_with, tail,
};

verus! {

/// An icon rule: the URL prefix, the glyph, and an optional RGB colour.
pub type IconRule = (String, String, Option<[u8; 3]>);

/// The mathematical value of an icon rule.
pub type RuleView = (Seq<char>, Seq<char>, Option<[u8; 3]>);

pub open spec fn rule_view(r: IconRule) -> RuleView {
    (r.0@, r.1@, r.2)
}

pub open spec fn rules_view(v: Seq<IconRule>) -> Seq<RuleView> {
    v.map_values(|r: IconRule| rule_view(r))
}

pub open spec fn strings_view(v: Seq<String>) -> Seq<Seq<char>> {
    v.map_values(|s: String| s@)
}

/// The colour written as `r,g,b` (text after a third comma is ignored);
/// `None` when a component is missing or is not a byte.
pub open spec fn color_of(c: Seq<char>) -> Option<[u8; 3]> {
    let gb = tail(c, ',');
    let b = tail(gb, ',');
    if !contains(c, ',') || !contains(gb, ',') {
        None
    } else {
        match (byte_of(head(c, ',')), byte_of(head(gb, ',')), byte_of(head(b, ','))) {
            (Some(r), Some(g), Some(b)) => Some([r, g, b]),
            _ => None,
        }
    }
}

/// The rule written as `prefix|icon[|r,g,b]`; `None` for a malformed entry
/// (no icon, or a colour that does not read as three bytes). Text after a
/// third `|` is ignored.
pub open spec fn rule_of(s: Seq<char>) -> Option<RuleView> {
    let rest = tail(s, '|');
    if !contains(s, '|') {
        None
    } else if !contains(rest, '|') {
        Some((head(s, '|'), head(rest, '|'), None))
    } else {
        match color_of(head(tail(rest, '|'), '|')) {
            Some(c) => Some((head(s, '|'), head(rest, '|'), Some(c))),
            None => None,
        }
    }
}

/// The well-formed overrides, in the order given.
pub open spec fn override_rules(o: Seq<Seq<char>>) -> Seq<RuleView>
    decreases o.len(),
{
    if o.len() == 0 {
        Seq::empty()
    } else {
        let before = override_rules(o.drop_last());
        match rule_of(o.last()) {
            Some(r) => before.push(r),
            None => before,
        }
    }
}

/// The built-in rules for GitHub, GitLab and Bitbucket.
pub open spec fn builtin_rules() -> Seq<RuleView> {
    seq![
        ("https://github.com/"@, "\u{e708}"@, Some([255u8, 255u8, 255u8])),
        ("git@github.com"@, "\u{e708}"@, Some([255u8, 255u8, 255u8])),
        ("https://gitlab.com"@, "\u{f296} "@, Some([252u8, 109u8, 38u8])),
        ("git@gitlab.com"@, "\u{f296} "@, Some([252u8, 109u8, 38u8])),
        ("https://bitbucket.org"@, "\u{e703}"@, Some([38u8, 132u8, 255u8])),
        ("git@bitbucket.org"@, "\u{e703}"@, Some([38u8, 132u8, 255u8])),
    ]
}

/// The search list: overrides first, then the built-in table.
pub open spec fn all_rules(o: Seq<Seq<char>>) -> Seq<RuleView> {
    override_rules(o) + builtin_rules()
}

/// The first rule whose prefix is a prefix of `url`.
pub open spec fn first_match(rules: Seq<RuleView>, url: Seq<char>) -> Option<RuleView>
    decreases rules.len(),
{
    if rules.len() == 0 {
        None
    } else if is_prefix(rules[0].0, url) {
        Some(rules[0])
    } else {
        first_match(rules.drop_first(), url)
    }
}

/// `s` in a 24-bit foreground colour, as an ANSI terminal sequence.
pub open spec fn colored(s: Seq<char>, c: [u8; 3]) -> Seq<char> {
    "\x1b[38;2;"@ + decimal(c[0] as nat) + ";"@ + decimal(c[1] as nat) + ";"@ + decimal(
        c[2] as nat,
    ) + "m"@ + s + "\x1b[39m"@
}

/// The icon text for `url` under `rules`.
pub open spec fn icon_text(rules: Seq<RuleView>, url: Seq<char>, color: bool) -> Seq<char> {
    match first_match(rules, url) {
        Some(r) => if color && r.2 is Some {
            colored(r.1, r.2->0)
        } else {
            r.1
        },
        None => "\u{e702}"@,
    }
}

/// The icon for `url` given the raw override strings.
pub open spec fn resolve_icon(overrides: Seq<Seq<char>>, url: Seq<char>, color: bool) -> Seq<
    char,
> {
    icon_text(all_rules(overrides), url, color)
}

proof fn lemma_first_override_leads(o: Seq<Seq<char>>)
    requires
        o.len() > 0,
        rule_of(o[0]) is Some,
    ensures
        override_rules(o).len() > 0,
        override_rules(o)[0] == rule_of(o[0])->0,
    decreases o.len(),
{
    if o.len() > 1 {
        let t = o.drop_last();
        assert(t[0] == o[0]);
        lemma_first_override_leads(t);
        let before = override_rules(t);
        match rule_of(o.last()) {
            Some(r) => assert(before.push(r)[0] == before[0]),
            None => {},
        }
    } else {
        assert(o.drop_last() =~= Seq::<Seq<char>>::empty());
        assert(override_rules(o.drop_last()) == Seq::<RuleView>::empty());
        assert(o.last() == o[0]);
        let r = rule_of(o[0])->0;
        assert(override_rules(o) == Seq::<RuleView>::empty().push(r));
    }
}

/// Overrides are searched first and in the order given: when the first
/// override is well formed and its prefix starts the URL, its glyph is the
/// icon, whatever the later overrides and the built-in rules say.
pub proof fn lemma_first_override_wins(o: Seq<Seq<char>>, url: Seq<char>)
    requires
        o.len() > 0,
        rule_of(o[0]) matches Some(r) && is_prefix(r.0, url),
    ensures
        resolve_icon(o, url, false) == (rule_of(o[0])->0).1,
{
    lemma_first_override_leads(o);
    let rules = all_rules(o);
    assert(rules[0] == override_rules(o)[0]);
}

/// Relies on owo_colors::OwoColorize::truecolor and its `Display`: the text
/// between a 24-bit foreground colour sequence and the foreground reset.
#[verifier::external_body]
fn truecolor(s: &String, r: u8, g: u8, b: u8) -> (out: String)
    ensures
        out@ == colored(s@, [r, g, b]),
{
    owo_colors::OwoColorize::truecolor(s, r, g, b).to_string()
}

/// Read `r,g,b` as a colour.
pub fn parse_color(c: &str) -> (r: Option<[u8; 3]>)
    ensures
        r == color_of(c@),
{
    let (red, gb) = split_first(c, ',');
    match gb {
        None => None,
        Some(gb) => {
            let (green, b) = split_first(gb.as_str(), ',');
            match b {
                None => None,
                Some(b) => {
                    let (blue, _) = split_first(b.as_str(), ',');
                    match (parse_byte(red.as_str()), parse_byte(green.as_str()), parse_byte(blue.as_str())) {
                        (Some(x), Some(y), Some(z)) => Some([x, y, z]),
                        _ => None,
                    }
                },
            }
        },
    }
}

/// Read one override entry `prefix|icon[|r,g,b]`.
pub fn parse_override(s: &str) -> (r: Option<IconRule>)
    ensures
        match r {
            Some(rule) => rule_of(s@) == Some(rule_view(rule)),
            None => rule_of(s@) is None,
        },
{
    let (prefix, rest) = split_first(s, '|');
    match rest {
        None => None,
        Some(rest) => {
            let (icon, more) = split_first(rest.as_str(), '|');
            match more {
                None => Some((prefix, icon, None)),
                Some(more) => {
                    let (color, _) = split_first(more.as_str(), '|');
                    match parse_color(color.as_str()) {
                        Some(c) => Some((prefix, icon, Some(c))),
                        None => None,
                    }
                },
            }
        },
    }
}

/// The built-in rules as values.
pub fn builtin_icons() -> (r: Vec<IconRule>)
    ensures
        rules_view(r@) == builtin_rules(),
{
    let r = vec![
        (String::from_str("https://github.com/"), String::from_str("\u{e708}"), Some([255u8, 255u8, 255u8])),
        (String::from_str("git@github.com"), String::from_str("\u{e708}"), Some([255u8, 255u8, 255u8])),
        (String::from_str("https://gitlab.com"), String::from_str("\u{f296} "), Some([252u8, 109u8, 38u8])),
        (String::from_str("git@gitlab.com"), String::from_str("\u{f296} "), Some([252u8, 109u8, 38u8])),
        (String::from_str("https://bitbucket.org"), String::from_str("\u{e703}"), Some([38u8, 132u8, 255u8])),
        (String::from_str("git@bitbucket.org"), String::from_str("\u{e703}"), Some([38u8, 132u8, 255u8])),
    ];
    assert(rules_view(r@) =~= builtin_rules());
    r
}

/// The search list for the given overrides: each well-formed override in
/// order, then the built-in rules. Malformed overrides are left out.
pub fn create_icons(icon_override: Vec<String>) -> (r: Vec<IconRule>)
    ensures
        rules_view(r@) == all_rules(strings_view(icon_override@)),
{
    let ghost o = strings_view(icon_override@);
    let mut r: Vec<IconRule> = Vec::new();
    let mut i: usize = 0;
    while i < icon_override.len()
        invariant
            o == strings_view(icon_override@),
            i <= icon_override@.len(),
            rules_view(r@) == override_rules(o.subrange(0, i as int)),
        decreases icon_override@.len() - i,
    {
        let parsed = parse_override(icon_override[i].as_str());
        assert(o.subrange(0, i + 1).drop_last() =~= o.subrange(0, i as int));
        assert(o.subrange(0, i + 1).last() == icon_override@[i as int]@);
        match parsed {
            Some(rule) => {
                r.push(rule);
                assert(rules_view(r@) =~= override_rules(o.subrange(0, i as int)).push(
                    rule_view(rule),
                ));
            },
            None => {},
        }
        i = i + 1;
    }
    assert(o.subrange(0, o.len() as int) =~= o);
    let ghost before = r@;
    let mut builtin = builtin_icons();
    let ghost b = builtin@;
    r.append(&mut builtin);
    assert(rules_view(r@) =~= rules_view(before) + rules_view(b));
    r
}

/// The icon text for `remote_uri` under `icons`: the glyph of the first
/// rule whose prefix it starts with, coloured when `icon_color` is set and
/// the rule has a colour; the unknown-host glyph when none matches.
pub fn icon_for(remote_uri: &str, icons: &Vec<IconRule>, icon_color: bool) -> (r: String)
    ensures
        r@ == icon_text(rules_view(icons@), remote_uri@, icon_color),
{
    let ghost rules = rules_view(icons@);
    assert(rules.subrange(0, rules.len() as int) =~= rules);
    let mut i: usize = 0;
    while i < icons.len()
        invariant
            rules == rules_view(icons@),
            i <= icons@.len(),
            first_match(rules, remote_uri@) == first_match(
                rules.subrange(i as int, rules.len() as int),
                remote_uri@,
            ),
        decreases icons@.len() - i,
    {
        let ghost rest = rules.subrange(i as int, rules.len() as int);
        assert(rest[0] == rule_view(icons@[i as int]));
        if starts_with(remote_uri, icons[i].0.as_str()) {
            let rule = &icons[i];
            if icon_color {
                match rule.2 {
                    Some(c) => {
                        return truecolor(&rule.1, c[0], c[1], c[2]);
                    },
                    None => {},
                }
            }
            return rule.1.clone();
        }
        assert(rest.drop_first() =~= rules.subrange(i + 1, rules.len() as int));
        i = i + 1;
    }
    String::from_str("\u{e702}")
}

/// The icon for a remote URL, searching the overrides before the built-in
/// rules.
pub fn get_icon(remote_uri: &str, icon_override: Vec<String>, icon_color: bool) -> (r: String)
    ensures
        r@ == resolve_icon(strings_view(icon_override@), remote_uri@, icon_color),
{
    let icons = create_icons(icon_override);
    icon_for(remote_uri, &icons, icon_color)
}

} // verus!
