//! The bucket manifest: the record the bucket emitter derives from the
//! metadata, and its serialization as pretty-printed JSON text with a fixed
//! key order.

use vstd::prelude::*;
use vstd::string::*;

use crate::vars::strip_git_spec;
use crate::vars::repository_url;
use crate::Manager;

verus! {

/// The JSON string literal encoding of a string, quotes and escapes
/// included, as the JSON serializer computes it from the characters alone.
pub uninterp spec fn json_string_of(s: Seq<char>) -> Seq<char>;

/// Relies on `serde_json::to_string` on `&str`: the result is the JSON
/// string literal encoding of the input, a function of its characters
/// alone. Serializing a string slice cannot fail: the documentation names
/// a failing `Serialize` impl and a map with non-string keys as the only
/// causes, and `str` has neither.
#[verifier::external_body]
fn json_quote(s: &str) -> (r: String)
    ensures
        r@ == json_string_of(s@),
{
    match serde_json::to_string(&s) {
        Ok(text) => text,
        Err(_) => String::new(),
    }
}

/// The manifest record behind the bucket artifact.
pub struct ScoopManifest {
    pub version: String,
    pub description: String,
    pub homepage: String,
    pub license: String,
    pub url: String,
    pub bin: Vec<String>,
    pub checkver: String,
    pub autoupdate_url: String,
}

/// The lines of the `bin` array body, one indented JSON string per binary
/// name, separated by commas.
pub open spec fn bin_items_spec(items: Seq<Seq<char>>) -> Seq<char>
    decreases items.len(),
{
    if items.len() == 0 {
        Seq::empty()
    } else if items.len() == 1 {
        "    "@ + json_string_of(items[0])
    } else {
        bin_items_spec(items.drop_last()) + ",\n"@ + "    "@ + json_string_of(items.last())
    }
}

/// The `bin` array: `[]` when empty, otherwise one item per line.
pub open spec fn bin_array_spec(items: Seq<Seq<char>>) -> Seq<char> {
    if items.len() == 0 {
        "[]"@
    } else {
        "[\n"@ + bin_items_spec(items) + "\n  ]"@
    }
}

/// The whole manifest document: every string field as its JSON string
/// encoding, keys in a fixed order, two-space indent.
pub open spec fn scoop_json_text(
    version: Seq<char>,
    description: Seq<char>,
    homepage: Seq<char>,
    license: Seq<char>,
    url: Seq<char>,
    bin: Seq<Seq<char>>,
    checkver: Seq<char>,
    autoupdate_url: Seq<char>,
) -> Seq<char> {
    "{\n  \"version\": "@ + json_string_of(version) + ",\n  \"description\": "@ + json_string_of(
        description,
    ) + ",\n  \"homepage\": "@ + json_string_of(homepage) + ",\n  \"license\": "@ + json_string_of(
        license,
    ) + ",\n  \"url\": "@ + json_string_of(url) + ",\n  \"bin\": "@ + bin_array_spec(bin)
        + ",\n  \"checkver\": "@ + json_string_of(checkver)
        + ",\n  \"autoupdate\": {\n    \"url\": "@ + json_string_of(autoupdate_url) + "\n  }\n}"@
}

/// The binary name the manifest lists: the configured one, or the project
/// name without one.
pub open spec fn scoop_bin_name_spec(bin: Option<Seq<char>>, name: Seq<char>) -> Seq<char> {
    match bin {
        Option::Some(b) => b,
        Option::None => name,
    }
}

/// The download location the manifest points at: the bare repository URL
/// with the latest-release suffix.
pub open spec fn release_download_url_spec(repository: Seq<char>) -> Seq<char> {
    strip_git_spec(repository) + "/releases/latest"@
}

impl ScoopManifest {
    /// The manifest record for a metadata record: version left for the
    /// update check to fill, the descriptive fields copied, the download
    /// location derived from the repository.
    pub fn from_manager(m: &Manager) -> (r: ScoopManifest)
        ensures
            r.version@ == Seq::<char>::empty(),
            r.description@ == m.description@,
            r.homepage@ == m.homepage@,
            r.license@ == m.license@,
            r.url@ == release_download_url_spec(m.repository@),
            r.bin.deep_view() == seq![scoop_bin_name_spec(m.bin.deep_view(), m.name@)],
            r.checkver@ == "github"@,
            r.autoupdate_url@ == release_download_url_spec(m.repository@),
    {
        let url = repository_url(m.repository.as_str()).concat("/releases/latest");
        let bin_name = match &m.bin {
            Option::Some(b) => b.clone(),
            Option::None => m.name.clone(),
        };
        let mut bin: Vec<String> = Vec::new();
        bin.push(bin_name);
        proof {
            assert(bin.deep_view() =~= seq![scoop_bin_name_spec(m.bin.deep_view(), m.name@)]);
        }
        ScoopManifest {
            version: String::new(),
            description: m.description.clone(),
            homepage: m.homepage.clone(),
            license: m.license.clone(),
            url: url.clone(),
            bin,
            checkver: String::from_str("github"),
            autoupdate_url: url,
        }
    }

    /// The manifest serialized as pretty-printed JSON.
    pub fn to_json(&self) -> (r: String)
        ensures
            r@ == scoop_json_text(
                self.version@,
                self.description@,
                self.homepage@,
                self.license@,
                self.url@,
                self.bin.deep_view(),
                self.checkver@,
                self.autoupdate_url@,
            ),
    {
        let ghost items = self.bin.deep_view();
        let mut out = String::from_str("{\n  \"version\": ");
        out.append(json_quote(self.version.as_str()).as_str());
        out.append(",\n  \"description\": ");
        out.append(json_quote(self.description.as_str()).as_str());
        out.append(",\n  \"homepage\": ");
        out.append(json_quote(self.homepage.as_str()).as_str());
        out.append(",\n  \"license\": ");
        out.append(json_quote(self.license.as_str()).as_str());
        out.append(",\n  \"url\": ");
        out.append(json_quote(self.url.as_str()).as_str());
        out.append(",\n  \"bin\": ");
        let ghost before_array = out@;
        if self.bin.len() == 0 {
            out.append("[]");
        } else {
            out.append("[\n");
            let mut i: usize = 0;
            while i < self.bin.len()
                invariant
                    i <= self.bin.len(),
                    items == self.bin.deep_view(),
                    out@ == before_array + "[\n"@ + bin_items_spec(items.take(i as int)),
                decreases self.bin.len() - i,
            {
                if i > 0 {
                    out.append(",\n");
                }
                out.append("    ");
                out.append(json_quote(self.bin[i].as_str()).as_str());
                proof {
                    assert(items.take(i as int + 1).drop_last() =~= items.take(i as int));
                    assert(items.take(i as int + 1).last() == items[i as int]);
                    assert(out@ =~= before_array + "[\n"@ + bin_items_spec(
                        items.take(i as int + 1),
                    ));
                }
                i = i + 1;
            }
            proof {
                assert(items.take(self.bin.len() as int) =~= items);
            }
            out.append("\n  ]");
        }
        proof {
            assert(out@ =~= before_array + bin_array_spec(items));
        }
        out.append(",\n  \"checkver\": ");
        out.append(json_quote(self.checkver.as_str()).as_str());
        out.append(",\n  \"autoupdate\": {\n    \"url\": ");
        out.append(json_quote(self.autoupdate_url.as_str()).as_str());
        out.append("\n  }\n}");
        proof {
            assert(out@ =~= scoop_json_text(
                self.version@,
                self.description@,
                self.homepage@,
                self.license@,
                self.url@,
                items,
                self.checkver@,
                self.autoupdate_url@,
            ));
        }
        out
    }
}

} // verus!
