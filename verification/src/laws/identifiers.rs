//! Model identifiers: how they are normalized, shown and looked up.

use vstd::prelude::*;

use crate::catalog::data::ZEN_CATALOG_KEY;
use crate::opencode::backend::Backend;
use crate::opencode::catalog::GO_PROVIDER_ID;
use crate::text;

verus! {

/// The name of the first-party provider holds no slash.
pub proof fn zen_name_has_no_slash()
    ensures
        !ZEN_CATALOG_KEY@.contains('/'),
        "/"@ == seq!['/'],
{
    reveal_strlit("opencode");
    reveal_strlit("/");
    assert("/"@ =~= seq!['/']);
}

/// What stands before the first slash of a provider's name, a slash and a model's name is the
/// provider's name, and what stands behind it is the model's.
pub proof fn split_of_joined(provider: Seq<char>, model: Seq<char>)
    requires
        !provider.contains('/'),
    ensures
        text::split_at_first(provider + "/"@ + model, '/') == Some((provider, model)),
{
    zen_name_has_no_slash();
    let whole = provider + "/"@ + model;
    let n = provider.len() as int;
    assert(whole[n] == '/');
    whole.index_of_first_ensures('/');
    let i = whole.index_of_first('/')->0;
    if i < n {
        assert(provider[i] == '/');
    }
    assert(whole.take(n) =~= provider);
    assert(whole.skip(n + 1) =~= model);
}

/// What is split at the first slash is put together again, and the first half holds no slash.
pub proof fn joined_of_split(id: Seq<char>)
    requires
        id.contains('/'),
    ensures
        text::split_at_first(id, '/') matches Some((provider, model)) && provider + "/"@ + model
            == id && !provider.contains('/'),
{
    zen_name_has_no_slash();
    id.index_of_first_ensures('/');
    let i = id.index_of_first('/')->0;
    assert(id.take(i) + "/"@ + id.skip(i + 1) =~= id);
    assert forall|j: int| 0 <= j < i implies id.take(i)[j] != '/' by {
        assert(id[j] != '/');
    }
}

/// To normalize an identifier twice is to normalize it once. On Go that holds unless the
/// identifier starts with the name of the service twice.
pub proof fn normalize_is_idempotent(b: Backend, id: Seq<char>)
    requires
        b is Go ==> !(GO_PROVIDER_ID@ + "/"@ + GO_PROVIDER_ID@ + "/"@).is_prefix_of(id),
    ensures
        b.normalized(b.normalized(id)) == b.normalized(id),
{
    match b {
        Backend::Zen => {
            if !id.contains('/') {
                zen_name_has_no_slash();
                let n = ZEN_CATALOG_KEY@.len() as int;
                assert(b.normalized(id)[n] == '/');
            }
        },
        Backend::Go => {
            let prefix = GO_PROVIDER_ID@ + "/"@;
            let rest = b.normalized(id);
            if prefix.is_prefix_of(id) && prefix.is_prefix_of(rest) {
                let twice = GO_PROVIDER_ID@ + "/"@ + GO_PROVIDER_ID@ + "/"@;
                assert(twice =~= prefix + prefix);
                assert forall|i: int| 0 <= i < twice.len() implies twice[i] == id[i] by {
                    if i >= prefix.len() {
                        assert(rest[i - prefix.len()] == id[i]);
                        assert(prefix[i - prefix.len()] == rest[i - prefix.len()]);
                    }
                }
                assert(twice =~= id.take(twice.len() as int));
            }
        },
    }
}

/// Zen finds the same model under an identifier and under its normalized form.
pub proof fn normalize_keeps_the_model(id: Seq<char>)
    ensures
        Backend::Zen.key_of(Backend::Zen.normalized(id)) == Backend::Zen.key_of(id),
{
    zen_name_has_no_slash();
    if !id.contains('/') {
        id.index_of_first_ensures('/');
        split_of_joined(ZEN_CATALOG_KEY@, id);
    }
}

/// A bare identifier and the same one behind the name of the first-party provider name the same
/// model.
pub proof fn bare_names_first_party(model: Seq<char>)
    requires
        !model.contains('/'),
    ensures
        Backend::Zen.key_of(model) == (ZEN_CATALOG_KEY@, model),
        Backend::Zen.key_of(ZEN_CATALOG_KEY@ + "/"@ + model) == (ZEN_CATALOG_KEY@, model),
{
    zen_name_has_no_slash();
    model.index_of_first_ensures('/');
    split_of_joined(ZEN_CATALOG_KEY@, model);
}

/// Go finds under the normalized form of an identifier what it finds under the identifier without
/// the name of the service.
pub proof fn go_drops_its_name(model: Seq<char>)
    ensures
        Backend::Go.normalized(GO_PROVIDER_ID@ + "/"@ + model) == model,
{
    let prefix = GO_PROVIDER_ID@ + "/"@;
    let id = prefix + model;
    assert(prefix =~= id.take(prefix.len() as int));
    assert(id.skip(prefix.len() as int) =~= model);
}

/// An identifier of Zen's catalog whose shown form names the same model: one of a third-party
/// provider, or one of the first-party provider without a further slash.
pub open spec fn shown_plainly(id: Seq<char>) -> bool {
    &&& id.contains('/')
    &&& Backend::Zen.key_of(id).0 == ZEN_CATALOG_KEY@ ==> !Backend::Zen.key_of(id).1.contains('/')
}

/// What is shown of an identifier that is shown plainly leads back to it.
pub proof fn normalize_undoes_display(id: Seq<char>)
    requires
        shown_plainly(id),
    ensures
        Backend::Zen.normalized(Backend::Zen.displayed(id)) == id,
        Backend::Zen.key_of(Backend::Zen.displayed(id)) == Backend::Zen.key_of(id),
{
    zen_name_has_no_slash();
    joined_of_split(id);
    let key = Backend::Zen.key_of(id);
    if key.0 == ZEN_CATALOG_KEY@ {
        key.1.index_of_first_ensures('/');
    }
}

/// Two different identifiers that are shown plainly are not shown alike.
pub proof fn display_is_injective(a: Seq<char>, b: Seq<char>)
    requires
        shown_plainly(a),
        shown_plainly(b),
        Backend::Zen.displayed(a) == Backend::Zen.displayed(b),
    ensures
        a == b,
{
    normalize_undoes_display(a);
    normalize_undoes_display(b);
}

/// A model is looked up under the identifier under which it is listed.
pub proof fn listed_id_names_the_model(b: Backend, key: (Seq<char>, Seq<char>))
    requires
        b is Zen ==> !key.0.contains('/'),
        b is Go ==> key.0 == GO_PROVIDER_ID@,
    ensures
        b.key_of(b.listed_id(key)) == key,
{
    if b is Zen {
        split_of_joined(key.0, key.1);
    }
}

/// A request goes out under the identifier that the model has at its own provider.
pub proof fn upstream_id_is_the_models(b: Backend, id: Seq<char>)
    ensures
        b.upstream_id(id, b.key_of(id).0) == b.key_of(id).1,
{
    zen_name_has_no_slash();
    if b is Zen {
        id.index_of_first_ensures('/');
        let key = b.key_of(id);
        let prefix = key.0 + "/"@;
        if id.contains('/') {
            joined_of_split(id);
            assert(prefix =~= id.take(prefix.len() as int));
            assert(id.skip(prefix.len() as int) =~= key.1);
        } else if prefix.is_prefix_of(id) {
            let n = key.0.len() as int;
            assert(id[n] == prefix[n]);
        }
    }
}

} // verus!
