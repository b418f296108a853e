//! The laws the renderer and the derived variables obey, stated over the
//! spec functions the emitters' contracts use.

use vstd::prelude::*;

use crate::render::release_render_spec;
use crate::render::tok_bin;
use crate::render::tok_channel;
use crate::render::tok_features;
use crate::render::tok_name;
use crate::text::all_disjoint;
use crate::text::contains_seq;
use crate::text::lemma_contains_prefix;
use crate::text::lemma_contains_prepend;
use crate::text::lemma_contains_skip;
use crate::text::lemma_occurs_in_skip;
use crate::text::occurs_at;
use crate::vars::bin_option_spec;
use crate::vars::ends_with_git;
use crate::vars::features_option_spec;
use crate::vars::strip_git_spec;

verus! {

/// Law: without a binary name and without a feature set, both option
/// fragments are empty, so the release workflow carries empty text at the
/// two option token positions.
pub proof fn lemma_absent_options_render_empty()
    ensures
        bin_option_spec(Option::None) == Seq::<char>::empty(),
        features_option_spec(Option::None) == Seq::<char>::empty(),
{
}

/// Law: with a binary name, the option fragment is exactly the
/// binary-selection flag followed by the name.
pub proof fn lemma_bin_option_fragment(x: Seq<char>)
    ensures
        bin_option_spec(Option::Some(x)) == "--bin "@ + x,
{
}

/// Law: stripping the `.git` suffix from a URL that does not end in it
/// returns the URL unchanged.
pub proof fn lemma_strip_git_no_suffix(s: Seq<char>)
    requires
        !ends_with_git(s),
    ensures
        strip_git_spec(s) == s,
{
}

/// The stripped URL never ends in `.git`.
pub proof fn lemma_strip_git_clean(s: Seq<char>)
    ensures
        !ends_with_git(strip_git_spec(s)),
    decreases s.len(),
{
    if ends_with_git(s) {
        lemma_strip_git_clean(s.subrange(0, s.len() - 4));
    }
}

/// Law: stripping the `.git` suffix is idempotent.
pub proof fn lemma_strip_git_idempotent(s: Seq<char>)
    ensures
        strip_git_spec(strip_git_spec(s)) == strip_git_spec(s),
{
    lemma_strip_git_clean(s);
}

/// Law: a template in which none of the four placeholder tokens occurs
/// renders to itself, whatever the variables hold: foreign text passes
/// through verbatim.
pub proof fn lemma_render_preserves_foreign_text(
    template: Seq<char>,
    channel: Seq<char>,
    name: Seq<char>,
    bin_opt: Seq<char>,
    features_opt: Seq<char>,
)
    requires
        !contains_seq(template, tok_channel()),
        !contains_seq(template, tok_name()),
        !contains_seq(template, tok_bin()),
        !contains_seq(template, tok_features()),
    ensures
        release_render_spec(template, channel, name, bin_opt, features_opt) == template,
    decreases template.len(),
{
    if template.len() > 0 {
        assert(!occurs_at(template, tok_channel(), 0) && !occurs_at(template, tok_name(), 0)
            && !occurs_at(template, tok_bin(), 0) && !occurs_at(template, tok_features(), 0));
        assert(!contains_seq(template.skip(1), tok_channel())) by {
            if contains_seq(template.skip(1), tok_channel()) {
                lemma_contains_skip(template, tok_channel(), 1);
            }
        }
        assert(!contains_seq(template.skip(1), tok_name())) by {
            if contains_seq(template.skip(1), tok_name()) {
                lemma_contains_skip(template, tok_name(), 1);
            }
        }
        assert(!contains_seq(template.skip(1), tok_bin())) by {
            if contains_seq(template.skip(1), tok_bin()) {
                lemma_contains_skip(template, tok_bin(), 1);
            }
        }
        assert(!contains_seq(template.skip(1), tok_features())) by {
            if contains_seq(template.skip(1), tok_features()) {
                lemma_contains_skip(template, tok_features(), 1);
            }
        }
        lemma_render_preserves_foreign_text(template.skip(1), channel, name, bin_opt, features_opt);
        assert(seq![template[0]] + template.skip(1) =~= template);
    }
}

/// The scanner copies a prefix in which no token starts.
pub proof fn lemma_render_copies_tokenfree_prefix(
    template: Seq<char>,
    channel: Seq<char>,
    name: Seq<char>,
    bin_opt: Seq<char>,
    features_opt: Seq<char>,
    k: int,
)
    requires
        0 <= k <= template.len(),
        forall|j: int| 0 <= j < k ==> !occurs_at(template, tok_channel(), j),
        forall|j: int| 0 <= j < k ==> !occurs_at(template, tok_name(), j),
        forall|j: int| 0 <= j < k ==> !occurs_at(template, tok_bin(), j),
        forall|j: int| 0 <= j < k ==> !occurs_at(template, tok_features(), j),
    ensures
        release_render_spec(template, channel, name, bin_opt, features_opt) == template.subrange(
            0,
            k,
        ) + release_render_spec(template.skip(k), channel, name, bin_opt, features_opt),
    decreases k,
{
    if k == 0 {
        assert(template.skip(0) =~= template);
        assert(template.subrange(0, 0) + release_render_spec(
            template,
            channel,
            name,
            bin_opt,
            features_opt,
        ) =~= release_render_spec(template, channel, name, bin_opt, features_opt));
    } else {
        assert forall|j: int| 0 <= j < k - 1 implies !occurs_at(
            template.skip(1),
            tok_channel(),
            j,
        ) by {
            if occurs_at(template.skip(1), tok_channel(), j) {
                lemma_occurs_in_skip(template, tok_channel(), 1, j);
            }
        }
        assert forall|j: int| 0 <= j < k - 1 implies !occurs_at(template.skip(1), tok_name(), j) by {
            if occurs_at(template.skip(1), tok_name(), j) {
                lemma_occurs_in_skip(template, tok_name(), 1, j);
            }
        }
        assert forall|j: int| 0 <= j < k - 1 implies !occurs_at(template.skip(1), tok_bin(), j) by {
            if occurs_at(template.skip(1), tok_bin(), j) {
                lemma_occurs_in_skip(template, tok_bin(), 1, j);
            }
        }
        assert forall|j: int| 0 <= j < k - 1 implies !occurs_at(
            template.skip(1),
            tok_features(),
            j,
        ) by {
            if occurs_at(template.skip(1), tok_features(), j) {
                lemma_occurs_in_skip(template, tok_features(), 1, j);
            }
        }
        lemma_render_copies_tokenfree_prefix(
            template.skip(1),
            channel,
            name,
            bin_opt,
            features_opt,
            k - 1,
        );
        assert(template.skip(1).skip(k - 1) =~= template.skip(k));
        assert(seq![template[0]] + (template.skip(1).subrange(0, k - 1) + release_render_spec(
            template.skip(k),
            channel,
            name,
            bin_opt,
            features_opt,
        )) =~= template.subrange(0, k) + release_render_spec(
            template.skip(k),
            channel,
            name,
            bin_opt,
            features_opt,
        ));
    }
}

/// True when every token occurrence stands apart from the stretch of
/// length `len` that starts at position `p`.
pub open spec fn tokens_clear_of(template: Seq<char>, p: int, len: int) -> bool {
    &&& forall|j: int|
        occurs_at(template, tok_channel(), j) ==> j + tok_channel().len() <= p || p + len <= j
    &&& forall|j: int|
        occurs_at(template, tok_name(), j) ==> j + tok_name().len() <= p || p + len <= j
    &&& forall|j: int| occurs_at(template, tok_bin(), j) ==> j + tok_bin().len() <= p || p + len <= j
    &&& forall|j: int|
        occurs_at(template, tok_features(), j) ==> j + tok_features().len() <= p || p + len <= j
}

/// Clearance survives dropping a prefix.
proof fn lemma_tokens_clear_shift(template: Seq<char>, p: int, len: int, d: int)
    requires
        0 <= d <= template.len(),
        tokens_clear_of(template, p, len),
    ensures
        tokens_clear_of(template.skip(d), p - d, len),
{
    assert forall|j: int| occurs_at(template.skip(d), tok_channel(), j) implies j
        + tok_channel().len() <= p - d || (p - d) + len <= j by {
        lemma_occurs_in_skip(template, tok_channel(), d, j);
    }
    assert forall|j: int| occurs_at(template.skip(d), tok_name(), j) implies j + tok_name().len()
        <= p - d || (p - d) + len <= j by {
        lemma_occurs_in_skip(template, tok_name(), d, j);
    }
    assert forall|j: int| occurs_at(template.skip(d), tok_bin(), j) implies j + tok_bin().len() <= p
        - d || (p - d) + len <= j by {
        lemma_occurs_in_skip(template, tok_bin(), d, j);
    }
    assert forall|j: int| occurs_at(template.skip(d), tok_features(), j) implies j
        + tok_features().len() <= p - d || (p - d) + len <= j by {
        lemma_occurs_in_skip(template, tok_features(), d, j);
    }
}

/// An occurrence of foreign text that every token occurrence stands apart
/// from survives the rendering.
pub proof fn lemma_render_passes_unknown_token_at(
    template: Seq<char>,
    channel: Seq<char>,
    name: Seq<char>,
    bin_opt: Seq<char>,
    features_opt: Seq<char>,
    other: Seq<char>,
    p: int,
)
    requires
        occurs_at(template, other, p),
        tokens_clear_of(template, p, other.len() as int),
    ensures
        contains_seq(
            release_render_spec(template, channel, name, bin_opt, features_opt),
            other,
        ),
    decreases template.len(),
{
    if p == 0 {
        assert forall|j: int| 0 <= j < other.len() implies !occurs_at(
            template,
            tok_channel(),
            j,
        ) by {
            if occurs_at(template, tok_channel(), j) {
                assert(j + tok_channel().len() <= 0 || other.len() <= j);
            }
        }
        assert forall|j: int| 0 <= j < other.len() implies !occurs_at(template, tok_name(), j) by {
            if occurs_at(template, tok_name(), j) {
                assert(j + tok_name().len() <= 0 || other.len() <= j);
            }
        }
        assert forall|j: int| 0 <= j < other.len() implies !occurs_at(template, tok_bin(), j) by {
            if occurs_at(template, tok_bin(), j) {
                assert(j + tok_bin().len() <= 0 || other.len() <= j);
            }
        }
        assert forall|j: int| 0 <= j < other.len() implies !occurs_at(
            template,
            tok_features(),
            j,
        ) by {
            if occurs_at(template, tok_features(), j) {
                assert(j + tok_features().len() <= 0 || other.len() <= j);
            }
        }
        lemma_render_copies_tokenfree_prefix(
            template,
            channel,
            name,
            bin_opt,
            features_opt,
            other.len() as int,
        );
        assert(template.subrange(0, other.len() as int) == other);
        lemma_contains_prefix(
            other,
            release_render_spec(
                template.skip(other.len() as int),
                channel,
                name,
                bin_opt,
                features_opt,
            ),
        );
    } else if occurs_at(template, tok_channel(), 0) {
        let d = tok_channel().len() as int;
        assert(template.skip(d).subrange(p - d, p - d + other.len()) =~= template.subrange(
            p,
            p + other.len(),
        ));
        assert(occurs_at(template.skip(d), other, p - d));
        lemma_tokens_clear_shift(template, p, other.len() as int, d);
        lemma_render_passes_unknown_token_at(
            template.skip(d),
            channel,
            name,
            bin_opt,
            features_opt,
            other,
            p - d,
        );
        lemma_contains_prepend(
            channel,
            release_render_spec(template.skip(d), channel, name, bin_opt, features_opt),
            other,
        );
    } else if occurs_at(template, tok_name(), 0) {
        let d = tok_name().len() as int;
        assert(template.skip(d).subrange(p - d, p - d + other.len()) =~= template.subrange(
            p,
            p + other.len(),
        ));
        assert(occurs_at(template.skip(d), other, p - d));
        lemma_tokens_clear_shift(template, p, other.len() as int, d);
        lemma_render_passes_unknown_token_at(
            template.skip(d),
            channel,
            name,
            bin_opt,
            features_opt,
            other,
            p - d,
        );
        lemma_contains_prepend(
            name,
            release_render_spec(template.skip(d), channel, name, bin_opt, features_opt),
            other,
        );
    } else if occurs_at(template, tok_bin(), 0) {
        let d = tok_bin().len() as int;
        assert(template.skip(d).subrange(p - d, p - d + other.len()) =~= template.subrange(
            p,
            p + other.len(),
        ));
        assert(occurs_at(template.skip(d), other, p - d));
        lemma_tokens_clear_shift(template, p, other.len() as int, d);
        lemma_render_passes_unknown_token_at(
            template.skip(d),
            channel,
            name,
            bin_opt,
            features_opt,
            other,
            p - d,
        );
        lemma_contains_prepend(
            bin_opt,
            release_render_spec(template.skip(d), channel, name, bin_opt, features_opt),
            other,
        );
    } else if occurs_at(template, tok_features(), 0) {
        let d = tok_features().len() as int;
        assert(template.skip(d).subrange(p - d, p - d + other.len()) =~= template.subrange(
            p,
            p + other.len(),
        ));
        assert(occurs_at(template.skip(d), other, p - d));
        lemma_tokens_clear_shift(template, p, other.len() as int, d);
        lemma_render_passes_unknown_token_at(
            template.skip(d),
            channel,
            name,
            bin_opt,
            features_opt,
            other,
            p - d,
        );
        lemma_contains_prepend(
            features_opt,
            release_render_spec(template.skip(d), channel, name, bin_opt, features_opt),
            other,
        );
    } else {
        assert(template.skip(1).subrange(p - 1, p - 1 + other.len()) =~= template.subrange(
            p,
            p + other.len(),
        ));
        assert(occurs_at(template.skip(1), other, p - 1));
        lemma_tokens_clear_shift(template, p, other.len() as int, 1);
        lemma_render_passes_unknown_token_at(
            template.skip(1),
            channel,
            name,
            bin_opt,
            features_opt,
            other,
            p - 1,
        );
        lemma_contains_prepend(
            seq![template[0]],
            release_render_spec(template.skip(1), channel, name, bin_opt, features_opt),
            other,
        );
    }
}

/// Law: a token outside the four known ones passes through the release
/// rendering verbatim, even beside known tokens, provided its occurrences
/// stand apart from every occurrence of each known token.
pub proof fn lemma_render_passes_unknown_token(
    template: Seq<char>,
    channel: Seq<char>,
    name: Seq<char>,
    bin_opt: Seq<char>,
    features_opt: Seq<char>,
    other: Seq<char>,
)
    requires
        contains_seq(template, other),
        all_disjoint(template, tok_channel(), other),
        all_disjoint(template, tok_name(), other),
        all_disjoint(template, tok_bin(), other),
        all_disjoint(template, tok_features(), other),
    ensures
        contains_seq(
            release_render_spec(template, channel, name, bin_opt, features_opt),
            other,
        ),
{
    let p = choose|p: int| occurs_at(template, other, p);
    assert forall|j: int| occurs_at(template, tok_channel(), j) implies j + tok_channel().len() <= p
        || p + other.len() <= j by {
        assert(occurs_at(template, other, p) && occurs_at(template, tok_channel(), j));
    }
    assert forall|j: int| occurs_at(template, tok_name(), j) implies j + tok_name().len() <= p || p
        + other.len() <= j by {
        assert(occurs_at(template, other, p) && occurs_at(template, tok_name(), j));
    }
    assert forall|j: int| occurs_at(template, tok_bin(), j) implies j + tok_bin().len() <= p || p
        + other.len() <= j by {
        assert(occurs_at(template, other, p) && occurs_at(template, tok_bin(), j));
    }
    assert forall|j: int| occurs_at(template, tok_features(), j) implies j + tok_features().len()
        <= p || p + other.len() <= j by {
        assert(occurs_at(template, other, p) && occurs_at(template, tok_features(), j));
    }
    lemma_render_passes_unknown_token_at(
        template,
        channel,
        name,
        bin_opt,
        features_opt,
        other,
        p,
    );
}

/// True when the occurrence of the bin-option token at `p` shares a
/// position with no other token occurrence: every occurrence of the other
/// three tokens, and of the bin-option token at any other position, stands
/// apart from it.
pub open spec fn bin_token_isolated(template: Seq<char>, p: int) -> bool {
    &&& forall|j: int|
        occurs_at(template, tok_channel(), j) ==> j + tok_channel().len() <= p || p
            + tok_bin().len() <= j
    &&& forall|j: int|
        occurs_at(template, tok_name(), j) ==> j + tok_name().len() <= p || p + tok_bin().len() <= j
    &&& forall|j: int|
        occurs_at(template, tok_features(), j) ==> j + tok_features().len() <= p || p
            + tok_bin().len() <= j
    &&& forall|j: int|
        occurs_at(template, tok_bin(), j) && j != p ==> j + tok_bin().len() <= p || p
            + tok_bin().len() <= j
}

/// Isolation survives dropping a prefix that ends at or before `p`.
proof fn lemma_bin_isolated_shift(template: Seq<char>, p: int, d: int)
    requires
        0 <= d <= template.len(),
        d <= p,
        bin_token_isolated(template, p),
    ensures
        bin_token_isolated(template.skip(d), p - d),
{
    assert forall|j: int| occurs_at(template.skip(d), tok_channel(), j) implies j
        + tok_channel().len() <= p - d || (p - d) + tok_bin().len() <= j by {
        lemma_occurs_in_skip(template, tok_channel(), d, j);
    }
    assert forall|j: int| occurs_at(template.skip(d), tok_name(), j) implies j + tok_name().len()
        <= p - d || (p - d) + tok_bin().len() <= j by {
        lemma_occurs_in_skip(template, tok_name(), d, j);
    }
    assert forall|j: int| occurs_at(template.skip(d), tok_features(), j) implies j
        + tok_features().len() <= p - d || (p - d) + tok_bin().len() <= j by {
        lemma_occurs_in_skip(template, tok_features(), d, j);
    }
    assert forall|j: int| occurs_at(template.skip(d), tok_bin(), j) && j != p - d implies j
        + tok_bin().len() <= p - d || (p - d) + tok_bin().len() <= j by {
        lemma_occurs_in_skip(template, tok_bin(), d, j);
    }
}

/// Law: with a binary name, the fully rendered release workflow contains
/// the binary-selection fragment, provided the bin-option token occurs in
/// the template at a position no other token occurrence shares.
pub proof fn lemma_release_render_contains_bin_flag(
    template: Seq<char>,
    channel: Seq<char>,
    name: Seq<char>,
    x: Seq<char>,
    features_opt: Seq<char>,
    p: int,
)
    requires
        occurs_at(template, tok_bin(), p),
        bin_token_isolated(template, p),
    ensures
        contains_seq(
            release_render_spec(template, channel, name, bin_option_spec(Option::Some(x)), features_opt),
            "--bin "@ + x,
        ),
    decreases template.len(),
{
    let bin_opt = bin_option_spec(Option::Some(x));
    if p == 0 {
        assert(!occurs_at(template, tok_channel(), 0));
        assert(!occurs_at(template, tok_name(), 0));
        lemma_contains_prefix(
            "--bin "@ + x,
            release_render_spec(
                template.skip(tok_bin().len() as int),
                channel,
                name,
                bin_opt,
                features_opt,
            ),
        );
    } else if occurs_at(template, tok_channel(), 0) {
        let d = tok_channel().len() as int;
        assert(d <= p);
        assert(template.skip(d).subrange(p - d, p - d + tok_bin().len()) =~= template.subrange(
            p,
            p + tok_bin().len(),
        ));
        assert(occurs_at(template.skip(d), tok_bin(), p - d));
        lemma_bin_isolated_shift(template, p, d);
        lemma_release_render_contains_bin_flag(
            template.skip(d),
            channel,
            name,
            x,
            features_opt,
            p - d,
        );
        lemma_contains_prepend(
            channel,
            release_render_spec(template.skip(d), channel, name, bin_opt, features_opt),
            "--bin "@ + x,
        );
    } else if occurs_at(template, tok_name(), 0) {
        let d = tok_name().len() as int;
        assert(d <= p);
        assert(template.skip(d).subrange(p - d, p - d + tok_bin().len()) =~= template.subrange(
            p,
            p + tok_bin().len(),
        ));
        assert(occurs_at(template.skip(d), tok_bin(), p - d));
        lemma_bin_isolated_shift(template, p, d);
        lemma_release_render_contains_bin_flag(
            template.skip(d),
            channel,
            name,
            x,
            features_opt,
            p - d,
        );
        lemma_contains_prepend(
            name,
            release_render_spec(template.skip(d), channel, name, bin_opt, features_opt),
            "--bin "@ + x,
        );
    } else if occurs_at(template, tok_bin(), 0) {
        let d = tok_bin().len() as int;
        assert(d <= p);
        assert(template.skip(d).subrange(p - d, p - d + tok_bin().len()) =~= template.subrange(
            p,
            p + tok_bin().len(),
        ));
        assert(occurs_at(template.skip(d), tok_bin(), p - d));
        lemma_bin_isolated_shift(template, p, d);
        lemma_release_render_contains_bin_flag(
            template.skip(d),
            channel,
            name,
            x,
            features_opt,
            p - d,
        );
        lemma_contains_prepend(
            bin_opt,
            release_render_spec(template.skip(d), channel, name, bin_opt, features_opt),
            "--bin "@ + x,
        );
    } else if occurs_at(template, tok_features(), 0) {
        let d = tok_features().len() as int;
        assert(d <= p);
        assert(template.skip(d).subrange(p - d, p - d + tok_bin().len()) =~= template.subrange(
            p,
            p + tok_bin().len(),
        ));
        assert(occurs_at(template.skip(d), tok_bin(), p - d));
        lemma_bin_isolated_shift(template, p, d);
        lemma_release_render_contains_bin_flag(
            template.skip(d),
            channel,
            name,
            x,
            features_opt,
            p - d,
        );
        lemma_contains_prepend(
            features_opt,
            release_render_spec(template.skip(d), channel, name, bin_opt, features_opt),
            "--bin "@ + x,
        );
    } else {
        assert(template.skip(1).subrange(p - 1, p - 1 + tok_bin().len()) =~= template.subrange(
            p,
            p + tok_bin().len(),
        ));
        assert(occurs_at(template.skip(1), tok_bin(), p - 1));
        lemma_bin_isolated_shift(template, p, 1);
        lemma_release_render_contains_bin_flag(
            template.skip(1),
            channel,
            name,
            x,
            features_opt,
            p - 1,
        );
        lemma_contains_prepend(
            seq![template[0]],
            release_render_spec(template.skip(1), channel, name, bin_opt, features_opt),
            "--bin "@ + x,
        );
    }
}

} // verus!
