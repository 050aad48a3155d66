//! Autotag rules: which tag a new window goes to, by the program it belongs to.

use vstd::prelude::*;

verus! {

/// One rule: windows of `program` go to the tag named `tag`.
#[derive(Clone, Debug)]
pub struct Autotag {
    pub program: String,
    pub tag: String,
}

/// Whether a rule applies to a program: its `program` is the wildcard `*`
/// or equals the program's identity.
pub open spec fn rule_matches(rule: Autotag, program: Seq<char>) -> bool {
    rule.program@ == "*"@ || rule.program@ == program
}

/// The tag of the first rule at or after position `from` that applies to `program`.
pub open spec fn matching_tag_from(rules: Seq<Autotag>, program: Seq<char>, from: int) -> Option<
    Seq<char>,
>
    decreases rules.len() - from,
{
    if from < 0 || from >= rules.len() {
        None
    } else if rule_matches(rules[from], program) {
        Some(rules[from].tag@)
    } else {
        matching_tag_from(rules, program, from + 1)
    }
}

/// The tag that the rules give a program: that of the first rule that applies.
pub open spec fn matching_tag(rules: Seq<Autotag>, program: Seq<char>) -> Option<Seq<char>> {
    matching_tag_from(rules, program, 0)
}

/// The tag a new window is assigned: the one the rules give it, else the active tag.
pub open spec fn assigned_tag(rules: Seq<Autotag>, program: Seq<char>, active: Seq<char>) -> Seq<
    char,
> {
    match matching_tag(rules, program) {
        Some(tag) => tag,
        None => active,
    }
}

impl Autotag {
    pub fn new(program: String, tag: String) -> (rule: Autotag)
        ensures
            rule.program == program,
            rule.tag == tag,
    {
        Autotag { program, tag }
    }

    /// Decides whether this rule applies to a program.
    pub fn matches(&self, program: &String) -> (applies: bool)
        ensures
            applies == rule_matches(*self, program@),
    {
        let wildcard = "*".to_owned();
        self.program == wildcard || self.program == *program
    }
}

/// Evaluates the rules from top to bottom for a program.
pub fn autotag_for(program: &String, rules: &Vec<Autotag>) -> (tag: Option<String>)
    ensures
        tag.is_some() == matching_tag(rules@, program@).is_some(),
        tag matches Some(t) ==> matching_tag(rules@, program@) == Some(t@),
{
    let mut i: usize = 0;
    while i < rules.len()
        invariant
            i <= rules.len(),
            matching_tag(rules@, program@) == matching_tag_from(rules@, program@, i as int),
        decreases rules.len() - i,
    {
        if rules[i].matches(program) {
            return Some(rules[i].tag.clone());
        }
        i += 1;
    }
    None
}

/// First match wins: the rules give a tag exactly when some rule applies, and
/// then it is the tag of the earliest rule that applies.
pub proof fn lemma_first_match_wins(rules: Seq<Autotag>, program: Seq<char>, from: int)
    requires
        0 <= from <= rules.len(),
    ensures
        match matching_tag_from(rules, program, from) {
            Some(tag) => exists|i: int|
                from <= i < rules.len() && rule_matches(#[trigger] rules[i], program) && tag
                    == rules[i].tag@ && forall|j: int|
                    from <= j < i ==> !rule_matches(#[trigger] rules[j], program),
            None => forall|i: int|
                from <= i < rules.len() ==> !rule_matches(#[trigger] rules[i], program),
        },
    decreases rules.len() - from,
{
    if from < rules.len() && !rule_matches(rules[from], program) {
        lemma_first_match_wins(rules, program, from + 1);
        match matching_tag_from(rules, program, from + 1) {
            Some(tag) => {
                let i = choose|i: int|
                    from + 1 <= i < rules.len() && rule_matches(#[trigger] rules[i], program) && tag
                        == rules[i].tag@ && forall|j: int|
                        from + 1 <= j < i ==> !rule_matches(#[trigger] rules[j], program);
                assert(forall|j: int| from <= j < i ==> !rule_matches(#[trigger] rules[j], program));
            },
            None => {},
        }
    } else if from < rules.len() {
        assert(rule_matches(rules[from], program));
    }
}

} // verus!
