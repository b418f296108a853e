//! The two rendering modes: token-replace substitution for the release
//! workflow, done by a verified single-pass scanner, and expression-template
//! evaluation of the bundled formula template, together with the PascalCase
//! derivation the formula needs.

use vstd::prelude::*;
use vstd::string::*;

use crate::text::occurs_at;

verus! {

/// The channel placeholder token.
pub open spec fn tok_channel() -> Seq<char> {
    seq!['{', '%', ' ', 'c', 'h', 'a', 'n', 'n', 'e', 'l', ' ', '%', '}']
}

/// The name placeholder token.
pub open spec fn tok_name() -> Seq<char> {
    seq!['{', '%', ' ', 'n', 'a', 'm', 'e', ' ', '%', '}']
}

/// The bin-option placeholder token.
pub open spec fn tok_bin() -> Seq<char> {
    seq!['{', '%', ' ', 'b', 'i', 'n', '_', 'o', 'p', 't', 'i', 'o', 'n', ' ', '%', '}']
}

/// The features-option placeholder token.
pub open spec fn tok_features() -> Seq<char> {
    seq![
        '{',
        '%',
        ' ',
        'f',
        'e',
        'a',
        't',
        'u',
        'r',
        'e',
        's',
        '_',
        'o',
        'p',
        't',
        'i',
        'o',
        'n',
        ' ',
        '%',
        '}',
    ]
}

/// The release-workflow text: single-pass simultaneous replacement of the
/// four placeholder tokens. The text is scanned left to right; at each
/// position the token that starts there, if any, is replaced by its value
/// and the scan continues after it. Substituted values are never rescanned,
/// so the result does not depend on an order among the tokens, and a token
/// not among the four is left verbatim.
pub open spec fn release_render_spec(
    template: Seq<char>,
    channel: Seq<char>,
    name: Seq<char>,
    bin_opt: Seq<char>,
    features_opt: Seq<char>,
) -> Seq<char>
    decreases template.len(),
{
    if template.len() == 0 {
        Seq::empty()
    } else if occurs_at(template, tok_channel(), 0) {
        channel + release_render_spec(
            template.skip(tok_channel().len() as int),
            channel,
            name,
            bin_opt,
            features_opt,
        )
    } else if occurs_at(template, tok_name(), 0) {
        name + release_render_spec(
            template.skip(tok_name().len() as int),
            channel,
            name,
            bin_opt,
            features_opt,
        )
    } else if occurs_at(template, tok_bin(), 0) {
        bin_opt + release_render_spec(
            template.skip(tok_bin().len() as int),
            channel,
            name,
            bin_opt,
            features_opt,
        )
    } else if occurs_at(template, tok_features(), 0) {
        features_opt + release_render_spec(
            template.skip(tok_features().len() as int),
            channel,
            name,
            bin_opt,
            features_opt,
        )
    } else {
        seq![template[0]] + release_render_spec(
            template.skip(1),
            channel,
            name,
            bin_opt,
            features_opt,
        )
    }
}

/// Whether `pat` occurs in `s` at position `i`, by character comparison.
fn matches_at(s: &str, i: usize, pat: &str) -> (r: bool)
    requires
        i <= s@.len(),
    ensures
        r == occurs_at(s@, pat@, i as int),
{
    let n = pat.unicode_len();
    let sn = s.unicode_len();
    if n > sn - i {
        return false;
    }
    let mut k: usize = 0;
    while k < n
        invariant
            k <= n,
            n == pat@.len(),
            sn == s@.len(),
            i + n <= sn,
            forall|m: int| 0 <= m < k ==> s@[i + m] == pat@[m],
        decreases n - k,
    {
        if s.get_char(i + k) != pat.get_char(k) {
            proof {
                if occurs_at(s@, pat@, i as int) {
                    assert(s@.subrange(i as int, i + pat@.len())[k as int] == pat@[k as int]);
                }
            }
            return false;
        }
        k = k + 1;
    }
    proof {
        assert(s@.subrange(i as int, i + pat@.len()) =~= pat@);
    }
    true
}

/// Token-replace rendering of the release-workflow template, by one
/// left-to-right scan over the text.
pub fn render_release_template(
    template: &str,
    channel: &str,
    name: &str,
    bin_opt: &str,
    features_opt: &str,
) -> (r: String)
    ensures
        r@ == release_render_spec(template@, channel@, name@, bin_opt@, features_opt@),
{
    proof {
        reveal_strlit("{% channel %}");
        reveal_strlit("{% name %}");
        reveal_strlit("{% bin_option %}");
        reveal_strlit("{% features_option %}");
        assert("{% channel %}"@ =~= tok_channel());
        assert("{% name %}"@ =~= tok_name());
        assert("{% bin_option %}"@ =~= tok_bin());
        assert("{% features_option %}"@ =~= tok_features());
    }
    let n = template.unicode_len();
    let mut out = String::new();
    let mut i: usize = 0;
    proof {
        assert(template@.skip(0) =~= template@);
        assert(Seq::<char>::empty() + release_render_spec(
            template@,
            channel@,
            name@,
            bin_opt@,
            features_opt@,
        ) =~= release_render_spec(template@, channel@, name@, bin_opt@, features_opt@));
    }
    while i < n
        invariant
            i <= n,
            n == template@.len(),
            "{% channel %}"@ == tok_channel(),
            "{% name %}"@ == tok_name(),
            "{% bin_option %}"@ == tok_bin(),
            "{% features_option %}"@ == tok_features(),
            release_render_spec(template@, channel@, name@, bin_opt@, features_opt@) == out@
                + release_render_spec(
                template@.skip(i as int),
                channel@,
                name@,
                bin_opt@,
                features_opt@,
            ),
        decreases n - i,
    {
        let ghost rest = template@.skip(i as int);
        let ghost out0 = out@;
        if matches_at(template, i, "{% channel %}") {
            proof {
                assert(occurs_at(template@, tok_channel(), i as int));
                assert(i + 13 <= n);
                assert(rest.subrange(0, 13) =~= template@.subrange(i as int, i + 13));
                assert(occurs_at(rest, tok_channel(), 0));
                assert(rest.skip(13) =~= template@.skip(i + 13));
                assert((out0 + channel@) + release_render_spec(
                    template@.skip(i + 13),
                    channel@,
                    name@,
                    bin_opt@,
                    features_opt@,
                ) =~= out0 + (channel@ + release_render_spec(
                    template@.skip(i + 13),
                    channel@,
                    name@,
                    bin_opt@,
                    features_opt@,
                )));
            }
            out.append(channel);
            i = i + 13;
        } else if matches_at(template, i, "{% name %}") {
            proof {
                assert(!occurs_at(rest, tok_channel(), 0)) by {
                    if occurs_at(rest, tok_channel(), 0) {
                        assert(template@.subrange(i as int, i + 13) =~= rest.subrange(0, 13));
                        assert(occurs_at(template@, tok_channel(), i as int));
                    }
                }
                assert(occurs_at(template@, tok_name(), i as int));
                assert(i + 10 <= n);
                assert(rest.subrange(0, 10) =~= template@.subrange(i as int, i + 10));
                assert(occurs_at(rest, tok_name(), 0));
                assert(rest.skip(10) =~= template@.skip(i + 10));
                assert((out0 + name@) + release_render_spec(
                    template@.skip(i + 10),
                    channel@,
                    name@,
                    bin_opt@,
                    features_opt@,
                ) =~= out0 + (name@ + release_render_spec(
                    template@.skip(i + 10),
                    channel@,
                    name@,
                    bin_opt@,
                    features_opt@,
                )));
            }
            out.append(name);
            i = i + 10;
        } else if matches_at(template, i, "{% bin_option %}") {
            proof {
                assert(!occurs_at(rest, tok_channel(), 0)) by {
                    if occurs_at(rest, tok_channel(), 0) {
                        assert(template@.subrange(i as int, i + 13) =~= rest.subrange(0, 13));
                        assert(occurs_at(template@, tok_channel(), i as int));
                    }
                }
                assert(!occurs_at(rest, tok_name(), 0)) by {
                    if occurs_at(rest, tok_name(), 0) {
                        assert(template@.subrange(i as int, i + 10) =~= rest.subrange(0, 10));
                        assert(occurs_at(template@, tok_name(), i as int));
                    }
                }
                assert(occurs_at(template@, tok_bin(), i as int));
                assert(i + 16 <= n);
                assert(rest.subrange(0, 16) =~= template@.subrange(i as int, i + 16));
                assert(occurs_at(rest, tok_bin(), 0));
                assert(rest.skip(16) =~= template@.skip(i + 16));
                assert((out0 + bin_opt@) + release_render_spec(
                    template@.skip(i + 16),
                    channel@,
                    name@,
                    bin_opt@,
                    features_opt@,
                ) =~= out0 + (bin_opt@ + release_render_spec(
                    template@.skip(i + 16),
                    channel@,
                    name@,
                    bin_opt@,
                    features_opt@,
                )));
            }
            out.append(bin_opt);
            i = i + 16;
        } else if matches_at(template, i, "{% features_option %}") {
            proof {
                assert(!occurs_at(rest, tok_channel(), 0)) by {
                    if occurs_at(rest, tok_channel(), 0) {
                        assert(template@.subrange(i as int, i + 13) =~= rest.subrange(0, 13));
                        assert(occurs_at(template@, tok_channel(), i as int));
                    }
                }
                assert(!occurs_at(rest, tok_name(), 0)) by {
                    if occurs_at(rest, tok_name(), 0) {
                        assert(template@.subrange(i as int, i + 10) =~= rest.subrange(0, 10));
                        assert(occurs_at(template@, tok_name(), i as int));
                    }
                }
                assert(!occurs_at(rest, tok_bin(), 0)) by {
                    if occurs_at(rest, tok_bin(), 0) {
                        assert(template@.subrange(i as int, i + 16) =~= rest.subrange(0, 16));
                        assert(occurs_at(template@, tok_bin(), i as int));
                    }
                }
                assert(occurs_at(template@, tok_features(), i as int));
                assert(i + 21 <= n);
                assert(rest.subrange(0, 21) =~= template@.subrange(i as int, i + 21));
                assert(occurs_at(rest, tok_features(), 0));
                assert(rest.skip(21) =~= template@.skip(i + 21));
                assert((out0 + features_opt@) + release_render_spec(
                    template@.skip(i + 21),
                    channel@,
                    name@,
                    bin_opt@,
                    features_opt@,
                ) =~= out0 + (features_opt@ + release_render_spec(
                    template@.skip(i + 21),
                    channel@,
                    name@,
                    bin_opt@,
                    features_opt@,
                )));
            }
            out.append(features_opt);
            i = i + 21;
        } else {
            let piece = template.substring_char(i, i + 1);
            proof {
                assert(!occurs_at(rest, tok_channel(), 0)) by {
                    if occurs_at(rest, tok_channel(), 0) {
                        assert(template@.subrange(i as int, i + 13) =~= rest.subrange(0, 13));
                        assert(occurs_at(template@, tok_channel(), i as int));
                    }
                }
                assert(!occurs_at(rest, tok_name(), 0)) by {
                    if occurs_at(rest, tok_name(), 0) {
                        assert(template@.subrange(i as int, i + 10) =~= rest.subrange(0, 10));
                        assert(occurs_at(template@, tok_name(), i as int));
                    }
                }
                assert(!occurs_at(rest, tok_bin(), 0)) by {
                    if occurs_at(rest, tok_bin(), 0) {
                        assert(template@.subrange(i as int, i + 16) =~= rest.subrange(0, 16));
                        assert(occurs_at(template@, tok_bin(), i as int));
                    }
                }
                assert(!occurs_at(rest, tok_features(), 0)) by {
                    if occurs_at(rest, tok_features(), 0) {
                        assert(template@.subrange(i as int, i + 21) =~= rest.subrange(0, 21));
                        assert(occurs_at(template@, tok_features(), i as int));
                    }
                }
                assert(rest.len() > 0);
                assert(piece@ =~= seq![rest[0]]);
                assert(rest.skip(1) =~= template@.skip(i as int + 1));
                assert((out0 + piece@) + release_render_spec(
                    template@.skip(i as int + 1),
                    channel@,
                    name@,
                    bin_opt@,
                    features_opt@,
                ) =~= out0 + (seq![rest[0]] + release_render_spec(
                    template@.skip(i as int + 1),
                    channel@,
                    name@,
                    bin_opt@,
                    features_opt@,
                )));
            }
            out.append(piece);
            i = i + 1;
        }
    }
    proof {
        assert(template@.skip(n as int) =~= Seq::<char>::empty());
        assert(out@ + release_render_spec(
            Seq::<char>::empty(),
            channel@,
            name@,
            bin_opt@,
            features_opt@,
        ) =~= out@);
    }
    out
}

/// The PascalCase form of a name, as the case conversion computes it from
/// the name's characters alone.
pub uninterp spec fn pascal_of(s: Seq<char>) -> Seq<char>;

/// Relies on `convert_case`: `to_case(Case::Pascal)` is a function of the
/// input characters alone.
#[verifier::external_body]
pub(crate) fn to_pascal_case(s: &str) -> (r: String)
    ensures
        r@ == pascal_of(s@),
{
    convert_case::Casing::to_case(&s, convert_case::Case::Pascal)
}

/// The bundled formula template body: six variable interpolations and
/// nothing else, so evaluation reaches none of the engine's arithmetic or
/// numeric handling.
pub open spec fn formula_template_spec() -> Seq<char> {
    "class {{ name_pascal_case }} < Formula\n  desc \"{{ description }}\"\n  homepage \"{{ homepage }}\"\n  head \"{{ repository }}\"\n  url \"{{ repository_url }}/releases/latest/download/{{ name }}.tar.gz\"\n\n  def install\n    bin.install \"{{ name }}\"\n  end\nend\n"@
}

/// The bundled formula template body, for the formula emitter to render.
pub fn formula_template() -> (r: &'static str)
    ensures
        r@ == formula_template_spec(),
{
    "class {{ name_pascal_case }} < Formula\n  desc \"{{ description }}\"\n  homepage \"{{ homepage }}\"\n  head \"{{ repository }}\"\n  url \"{{ repository_url }}/releases/latest/download/{{ name }}.tar.gz\"\n\n  def install\n    bin.install \"{{ name }}\"\n  end\nend\n"
}

/// The text that expression-template evaluation produces, when it
/// succeeds, from the template and the six formula variables.
pub uninterp spec fn formula_render_of(
    template: Seq<char>,
    name: Seq<char>,
    name_pascal: Seq<char>,
    description: Seq<char>,
    homepage: Seq<char>,
    repository: Seq<char>,
    repository_url: Seq<char>,
) -> Seq<char>;

/// Whether expression-template evaluation of the template against the six
/// formula variables succeeds.
pub uninterp spec fn formula_render_ok(
    template: Seq<char>,
    name: Seq<char>,
    name_pascal: Seq<char>,
    description: Seq<char>,
    homepage: Seq<char>,
    repository: Seq<char>,
    repository_url: Seq<char>,
) -> bool;

/// Relies on `tera::Tera::render_str` over a `tera::Context` holding the
/// six variables, as `Tera::one_off` runs it without autoescaping. It is
/// believed only for the bundled formula template, whose directives are
/// six plain variable interpolations: evaluation reaches none of the
/// engine's arithmetic or numeric literal handling (its panic paths) and
/// calls no engine function, so the call returns, and its outcome and text
/// depend on the template and the variables alone. The wrapper besides
/// removes the engine's clock, random and environment functions, the three
/// impure ones its default instance registers. A failure comes back as the
/// error's message.
#[verifier::external_body]
pub(crate) fn render_formula_template(
    template: &str,
    name: &str,
    name_pascal: &str,
    description: &str,
    homepage: &str,
    repository: &str,
    repository_url: &str,
) -> (r: Result<String, String>)
    requires
        template@ == formula_template_spec(),
    ensures
        r is Ok <==> formula_render_ok(
            template@,
            name@,
            name_pascal@,
            description@,
            homepage@,
            repository@,
            repository_url@,
        ),
        r matches Ok(text) ==> text@ == formula_render_of(
            template@,
            name@,
            name_pascal@,
            description@,
            homepage@,
            repository@,
            repository_url@,
        ),
{
    let mut context = tera::Context::new();
    context.insert("name", name);
    context.insert("name_pascal_case", name_pascal);
    context.insert("description", description);
    context.insert("homepage", homepage);
    context.insert("repository", repository);
    context.insert("repository_url", repository_url);
    let mut tera = tera::Tera::default();
    tera.functions.remove("now");
    tera.functions.remove("get_random");
    tera.functions.remove("get_env");
    match tera.render_str(template, &context) {
        Ok(text) => Ok(text),
        Err(err) => Err(format!("{}", err)),
    }
}

} // verus!
