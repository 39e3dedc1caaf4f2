//! Texts: how they are split, joined and ordered, and the forms of model identifiers.

use vstd::prelude::*;

use crate::catalog::data::Meta;
use crate::laws::identifiers;
use crate::laws::requests;
use crate::opencode::backend::Backend;
use crate::provider::ProviderKind;
use crate::text;

verus! {

/// A text is split exactly where the character occurs; the halves and the character between them
/// are the text, and the first half is without the character.
pub proof fn split_halves_are_the_text(s: &str, c: char, halves: Option<(&str, &str)>)
    requires
        call_ensures(text::split_once, (s, c), halves),
    ensures
        halves is Some <==> s@.contains(c),
        halves matches Some((head, tail)) ==> s@ == head@ + seq![c] + tail@ && !head@.contains(c),
{
    s@.index_of_first_ensures(c);
    match halves {
        Some((head, tail)) => {
            let i = s@.index_of_first(c)->0;
            assert(s@ =~= head@ + seq![c] + tail@);
            assert forall|j: int| 0 <= j < head@.len() implies head@[j] != c by {
                assert(head@[j] == s@[j]);
            }
        },
        None => {},
    }
}

/// What is left of a text behind its beginning is what follows it; and nothing is left exactly
/// where the text does not begin so.
pub proof fn rest_follows_the_prefix(s: &str, prefix: &str, rest: Option<&str>, t: Seq<char>)
    requires
        call_ensures(text::strip_prefix, (s, prefix), rest),
    ensures
        rest matches Some(r) ==> s@ == prefix@ + r@,
        rest is None ==> s@ != prefix@ + t,
{
    match rest {
        Some(r) => {
            assert(s@ =~= prefix@ + r@);
        },
        None => {
            if s@ == prefix@ + t {
                assert(prefix@ =~= s@.take(prefix@.len() as int));
            }
        },
    }
}

/// The texts are alike up to place `i`, and there the first has the smaller character.
pub open spec fn smaller_at(a: Seq<char>, b: Seq<char>, i: int) -> bool {
    &&& 0 <= i < a.len()
    &&& i < b.len()
    &&& a.take(i) == b.take(i)
    &&& (a[i] as int) < (b[i] as int)
}

/// A text is compared by the first place where it differs from another.
pub proof fn compared_by_first_difference(a: &str, b: &str, le: bool)
    requires
        call_ensures(text::not_after, (a, b), le),
    ensures
        le <==> a@.is_prefix_of(b@) || exists|i: int| #[trigger] smaller_at(a@, b@, i),
{
    texts_are_ordered_by_first_difference(a@, b@);
}

/// Of no texts nothing is joined; one is joined to itself; and a list is joined of its parts, with
/// the separator between them.
pub proof fn joined_of_parts(
    list: &Vec<String>,
    sep: &str,
    whole: String,
    first: Seq<Seq<char>>,
    second: Seq<Seq<char>>,
)
    requires
        call_ensures(text::join, (list, sep), whole),
    ensures
        list@.len() == 0 ==> whole@.len() == 0,
        list@.len() == 1 ==> whole@ == list@[0]@,
        list.deep_view() == first + second && first.len() > 0 && second.len() > 0 ==> whole@
            == text::joined(first, sep@) + sep@ + text::joined(second, sep@),
{
    joining_is_piecewise(first, second, sep@, list.deep_view()[0]);
    if list@.len() == 1 {
        assert(list.deep_view()[0] == list@[0]@);
    }
}

/// `id` in lookups and listings: on Zen with the name of a provider in front, the first party's
/// where there was none; on Go without the name of the service.
pub open spec fn is_normalized(b: Backend, id: Seq<char>, form: Seq<char>) -> bool {
    match b {
        Backend::Zen => {
            &&& id.contains('/') ==> form == id
            &&& !id.contains('/') ==> form == "opencode/"@ + id
        },
        Backend::Go => {
            ||| id == "opencode-go/"@ + form
            ||| form == id && !"opencode-go/"@.is_prefix_of(id)
        },
    }
}

/// `id` as it is shown: on Zen without the name of the first party; on Go as it is.
pub open spec fn is_shown_form(b: Backend, id: Seq<char>, form: Seq<char>) -> bool {
    match b {
        Backend::Zen => {
            ||| id == "opencode/"@ + form
            ||| form == id && !"opencode/"@.is_prefix_of(id)
        },
        Backend::Go => form == id,
    }
}

/// The forms of an identifier are those of the service.
proof fn forms(b: Backend, id: Seq<char>)
    ensures
        is_normalized(b, id, b.normalized(id)),
        is_shown_form(b, id, b.displayed(id)),
{
    reveal_strlit("/");
    reveal_strlit("opencode");
    reveal_strlit("opencode/");
    reveal_strlit("opencode-go");
    reveal_strlit("opencode-go/");
    assert("opencode/"@ =~= "opencode"@ + "/"@);
    assert("opencode-go/"@ =~= "opencode-go"@ + "/"@);
    id.index_of_first_ensures('/');
    match b {
        Backend::Zen => {
            let prefix = "opencode/"@;
            if id.contains('/') {
                identifiers::joined_of_split(id);
            }
            if prefix.is_prefix_of(id) {
                let rest = id.skip(prefix.len() as int);
                assert(id =~= "opencode"@ + "/"@ + rest);
                identifiers::split_of_joined("opencode"@, rest);
                assert(id =~= prefix + b.displayed(id));
            } else if b.displayed(id) != id {
                let shown = b.displayed(id);
                assert(id =~= prefix + shown);
                assert(prefix =~= id.take(prefix.len() as int));
            }
        },
        Backend::Go => {
            let prefix = "opencode-go/"@;
            if prefix.is_prefix_of(id) {
                assert(id =~= prefix + b.normalized(id));
            }
        },
    }
}

/// A service normalizes and shows an identifier in its own forms.
pub proof fn service_forms(b: &Backend, id: &str, normalized: String, shown: &str)
    requires
        call_ensures(Backend::normalize_model_id, (b, id), normalized),
        call_ensures(Backend::display_model_id, (b, id), shown),
    ensures
        is_normalized(*b, id@, normalized@),
        is_shown_form(*b, id@, shown@),
{
    forms(*b, id@);
}

/// The kinds of the two services have the forms of the services; every other kind leaves an
/// identifier as it is.
pub proof fn kind_forms(kind: &ProviderKind, id: &str, normalized: String, shown: &str)
    requires
        call_ensures(ProviderKind::normalize_model_id, (kind, id), normalized),
        call_ensures(ProviderKind::display_model_id, (kind, id), shown),
    ensures
        kind is OpencodeZen ==> is_normalized(Backend::Zen, id@, normalized@) && is_shown_form(
            Backend::Zen,
            id@,
            shown@,
        ),
        kind is OpencodeGo ==> is_normalized(Backend::Go, id@, normalized@) && is_shown_form(
            Backend::Go,
            id@,
            shown@,
        ),
        !(kind is OpencodeZen || kind is OpencodeGo) ==> normalized@ == id@ && shown@ == id@,
{
    forms(Backend::Zen, id@);
    forms(Backend::Go, id@);
}

/// A name and the slash behind it are taken off an identifier that begins with them, and nothing is
/// taken off any other.
pub proof fn name_is_taken_off(b: &Backend, id: &str, name: &str, rest: String)
    requires
        call_ensures(Backend::strip_prefix, (b, id, name), rest),
    ensures
        id@ == name@ + seq!['/'] + rest@ || rest@ == id@ && !(name@ + seq!['/']).is_prefix_of(id@),
{
    identifiers::zen_name_has_no_slash();
    let prefix = name@ + seq!['/'];
    if prefix.is_prefix_of(id@) {
        assert(id@ =~= prefix + rest@);
    }
}

/// What is given from outside is for the first party alone on Zen, and for all on Go.
pub proof fn given_from_outside_is_for(b: &Backend, meta: &Meta, allowed: bool)
    requires
        call_ensures(Backend::allow_auth_override, (b, meta), allowed),
    ensures
        allowed <==> requests::given_is_for(*b, meta.provider_id@),
{
}

/// One text does not come after another exactly where it is the beginning of the other, or has
/// the smaller character at the first place where they differ.
pub proof fn texts_are_ordered_by_first_difference(a: Seq<char>, b: Seq<char>)
    ensures
        text::text_le(a, b) <==> a.is_prefix_of(b) || exists|i: int| #[trigger] smaller_at(a, b, i),
    decreases a.len(),
{
    if a.len() == 0 {
        assert(a =~= b.take(0));
    } else if b.len() == 0 {
    } else if a[0] == b[0] {
        let c = a.drop_first();
        let d = b.drop_first();
        texts_are_ordered_by_first_difference(c, d);
        if c.is_prefix_of(d) {
            assert forall|k: int| 0 <= k < a.len() implies a[k] == b[k] by {
                if k > 0 {
                    assert(c[k - 1] == d.take(c.len() as int)[k - 1]);
                }
            }
            assert(a =~= b.take(a.len() as int));
        }
        if a.is_prefix_of(b) {
            assert forall|k: int| 0 <= k < c.len() implies c[k] == d[k] by {
                assert(a[k + 1] == b.take(a.len() as int)[k + 1]);
            }
            assert(c =~= d.take(c.len() as int));
        }
        if exists|i: int| #[trigger] smaller_at(c, d, i) {
            let i = choose|i: int| #[trigger] smaller_at(c, d, i);
            assert(a.take(i + 1) =~= seq![a[0]] + c.take(i));
            assert(b.take(i + 1) =~= seq![b[0]] + d.take(i));
            assert(smaller_at(a, b, i + 1));
        }
        if exists|i: int| #[trigger] smaller_at(a, b, i) {
            let i = choose|i: int| #[trigger] smaller_at(a, b, i);
            assert(i > 0);
            assert(c.take(i - 1) =~= a.take(i).drop_first());
            assert(d.take(i - 1) =~= b.take(i).drop_first());
            assert(smaller_at(c, d, i - 1));
        }
    } else {
        if a.is_prefix_of(b) {
            assert(a[0] == b.take(a.len() as int)[0]);
        }
        if (a[0] as int) < (b[0] as int) {
            assert(a.take(0) =~= b.take(0));
            assert(smaller_at(a, b, 0));
        }
        if exists|i: int| #[trigger] smaller_at(a, b, i) {
            let i = choose|i: int| #[trigger] smaller_at(a, b, i);
            if i > 0 {
                assert(a.take(i)[0] == a[0] && b.take(i)[0] == b[0]);
            }
        }
    }
}

/// Two lists joined are the joined lists with the separator between; one text joined is itself.
pub proof fn joining_is_piecewise(
    first: Seq<Seq<char>>,
    second: Seq<Seq<char>>,
    sep: Seq<char>,
    x: Seq<char>,
)
    ensures
        text::joined(seq![x], sep) == x,
        text::joined(Seq::empty(), sep) == Seq::<char>::empty(),
        first.len() > 0 && second.len() > 0 ==> text::joined(first + second, sep) == text::joined(
            first,
            sep,
        ) + sep + text::joined(second, sep),
    decreases second.len(),
{
    if first.len() > 0 && second.len() > 0 {
        let whole = first + second;
        assert(whole.last() == second.last());
        if second.len() == 1 {
            assert(whole.drop_last() =~= first);
            assert(second[0] == second.last());
        } else {
            let rest = second.drop_last();
            joining_is_piecewise(first, rest, sep, x);
            assert(whole.drop_last() =~= first + rest);
            assert(text::joined(whole, sep) =~= text::joined(first, sep) + sep + text::joined(
                second,
                sep,
            ));
        }
    }
}

} // verus!
