//! Keys in the environment and in storage, as they were found when they were read.

use vstd::prelude::*;

use crate::assoc::AssocMap;

verus! {

/// Texts by name: environment variables and what they are set to, or slugs and the keys saved
/// under them.
pub type Texts = AssocMap<String, String>;

/// What a `Texts` stands for.
pub type TextsView = Map<Seq<char>, Seq<char>>;

/// The text of a name, where it has one.
pub open spec fn text_of(texts: TextsView, name: Seq<char>) -> Option<Seq<char>> {
    if texts.contains_key(name) {
        Some(texts[name])
    } else {
        None
    }
}

/// The first of the names that has a text.
pub open spec fn first_set(names: Seq<Seq<char>>, texts: TextsView) -> Option<Seq<char>>
    decreases names.len(),
{
    if names.len() == 0 {
        None
    } else if texts.contains_key(names[0]) {
        Some(names[0])
    } else {
        first_set(names.drop_first(), texts)
    }
}

/// The text of the first of the names that has one.
pub open spec fn first_text(names: Seq<Seq<char>>, texts: TextsView) -> Option<Seq<char>> {
    match first_set(names, texts) {
        Some(name) => Some(texts[name]),
        None => None,
    }
}

/// Where a name among them has a text, the first such name is found, and it has a text.
pub proof fn first_set_is_first(names: Seq<Seq<char>>, texts: TextsView)
    ensures
        match first_set(names, texts) {
            Some(name) => exists|i: int|
                {
                    &&& 0 <= i < names.len()
                    &&& #[trigger] names[i] == name
                    &&& texts.contains_key(name)
                    &&& forall|j: int| 0 <= j < i ==> !texts.contains_key(#[trigger] names[j])
                },
            None => forall|j: int|
                0 <= j < names.len() ==> !texts.contains_key(#[trigger] names[j]),
        },
    decreases names.len(),
{
    if names.len() > 0 && !texts.contains_key(names[0]) {
        let rest = names.drop_first();
        first_set_is_first(rest, texts);
        match first_set(rest, texts) {
            Some(name) => {
                let i = choose|i: int|
                    {
                        &&& 0 <= i < rest.len()
                        &&& #[trigger] rest[i] == name
                        &&& texts.contains_key(name)
                        &&& forall|j: int| 0 <= j < i ==> !texts.contains_key(#[trigger] rest[j])
                    };
                assert(names[i + 1] == name);
                assert forall|j: int| 0 <= j < i + 1 implies !texts.contains_key(
                    #[trigger] names[j],
                ) by {
                    if j > 0 {
                        assert(rest[j - 1] == names[j]);
                    }
                }
            },
            None => {
                assert forall|j: int| 0 <= j < names.len() implies !texts.contains_key(
                    #[trigger] names[j],
                ) by {
                    if j > 0 {
                        assert(rest[j - 1] == names[j]);
                    }
                }
            },
        }
    } else if names.len() > 0 {
        assert(names[0] == first_set(names, texts)->0);
    }
}

/// The place of the first of the names that has a text.
pub fn find_set(names: &Vec<String>, texts: &Texts) -> (found: Option<usize>)
    ensures
        match found {
            Some(i) => i < names.len() && first_set(names.deep_view(), texts@) == Some(
                names@[i as int]@,
            ) && texts@.contains_key(names@[i as int]@),
            None => first_set(names.deep_view(), texts@) is None,
        },
{
    let ghost all = names.deep_view();
    assert(all.skip(0) =~= all);
    for i in 0..names.len()
        invariant
            all == names.deep_view(),
            first_set(all, texts@) == first_set(all.skip(i as int), texts@),
    {
        assert(all.skip(i as int)[0] == names@[i as int]@);
        assert(all.skip(i as int).drop_first() =~= all.skip(i + 1));
        if texts.contains_key(&names[i]) {
            return Some(i);
        }
    }
    None
}

/// The text of the first of the names that has one.
pub fn find_text(names: &Vec<String>, texts: &Texts) -> (found: Option<String>)
    ensures
        found.deep_view() == first_text(names.deep_view(), texts@),
{
    match find_set(names, texts) {
        Some(i) => read_text(texts, names[i].as_str()),
        None => None,
    }
}

/// The text of a name, where it has one.
pub fn read_text(texts: &Texts, name: &str) -> (found: Option<String>)
    ensures
        found.deep_view() == text_of(texts@, name@),
{
    match texts.get(&name.to_owned()) {
        Some(text) => Some(text.clone()),
        None => None,
    }
}

} // verus!
