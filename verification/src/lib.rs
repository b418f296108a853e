//! Generation of distribution-packaging artifacts (a Homebrew tap formula
//! and its update workflow, a Scoop bucket manifest, and a GitHub release
//! workflow) from a single metadata record.
//!
//! Each emitter turns the metadata record, with a supplied or bundled
//! template body, into a rendered artifact: a destination path together
//! with the text to write there. Creating directories, writing the file
//! and reporting to the operator are left to the caller.

use vstd::prelude::*;

pub mod laws;
pub mod paths;
pub mod render;
pub mod scoop;
pub mod text;
pub mod vars;

use crate::paths::bucket_path;
use crate::paths::bucket_path_spec;
use crate::paths::release_workflow_rel_path;
use crate::paths::release_workflow_rel_path_spec;
use crate::paths::tap_formula_path;
use crate::paths::tap_formula_path_spec;
use crate::paths::tap_workflow_path;
use crate::paths::tap_workflow_path_spec;
use crate::render::formula_render_of;
use crate::render::formula_render_ok;
use crate::render::formula_template;
use crate::render::formula_template_spec;
use crate::render::pascal_of;
use crate::render::render_formula_template;
use crate::render::render_release_template;
use crate::render::release_render_spec;
use crate::render::to_pascal_case;
use crate::scoop::release_download_url_spec;
use crate::scoop::scoop_bin_name_spec;
use crate::scoop::scoop_json_text;
use crate::scoop::ScoopManifest;
use crate::vars::bin_option;
use crate::vars::bin_option_spec;
use crate::vars::features_option;
use crate::vars::features_option_spec;
use crate::vars::repository_url;
use crate::vars::strip_git_spec;
use vstd::string::*;

verus! {

/// A rendered artifact: the destination path and the text to write there.
pub struct Artifact {
    pub path: String,
    pub content: String,
}

/// The metadata record: every per-project fact an artifact needs.
///
/// `name` serves as a file-name segment; `repository` may carry a trailing
/// `.git` suffix, stripped where a bare URL is needed;
/// `homebrew_tap_path` is the directory the tap artifacts go under.
#[derive(Debug, Clone)]
pub struct Manager {
    pub bin: Option<String>,
    pub channel: String,
    pub features: Option<String>,
    pub name: String,
    pub description: String,
    pub homepage: String,
    pub repository: String,
    pub license: String,
    pub homebrew_tap_path: String,
}

impl Manager {
    /// The tap update-workflow artifact: the fixed workflow document,
    /// verbatim and without substitution, at its fixed path under the tap
    /// root.
    pub fn write_homebrewtap_workflows_update_formula(&self, template: &str) -> (a: Artifact)
        ensures
            a.path@ == tap_workflow_path_spec(self.homebrew_tap_path@),
            a.content@ == template@,
    {
        Artifact {
            path: tap_workflow_path(self.homebrew_tap_path.as_str()),
            content: String::from_str(template),
        }
    }

    /// The tap formula artifact for already rendered formula text.
    pub fn homebrewtap_templates_formula_artifact(&self, content: String) -> (a: Artifact)
        ensures
            a.path@ == tap_formula_path_spec(self.homebrew_tap_path@, self.name@),
            a.content@ == content@,
    {
        Artifact {
            path: tap_formula_path(self.homebrew_tap_path.as_str(), self.name.as_str()),
            content,
        }
    }

    /// The tap formula artifact: the bundled formula template rendered in
    /// expression-template mode against the six formula variables. The
    /// rendering succeeds exactly when evaluation of that template against
    /// these variables does; a failure comes back as the error's message,
    /// and no artifact exists to write.
    pub fn write_homebrewtap_templates_formula(&self) -> (r: Result<Artifact, String>)
        ensures
            r is Ok <==> formula_render_ok(
                formula_template_spec(),
                self.name@,
                pascal_of(self.name@),
                self.description@,
                self.homepage@,
                self.repository@,
                strip_git_spec(self.repository@),
            ),
            r matches Ok(a) ==> a.path@ == tap_formula_path_spec(
                self.homebrew_tap_path@,
                self.name@,
            ) && a.content@ == formula_render_of(
                formula_template_spec(),
                self.name@,
                pascal_of(self.name@),
                self.description@,
                self.homepage@,
                self.repository@,
                strip_git_spec(self.repository@),
            ),
    {
        let name_pascal = to_pascal_case(self.name.as_str());
        let repo_url = repository_url(self.repository.as_str());
        match render_formula_template(
            formula_template(),
            self.name.as_str(),
            name_pascal.as_str(),
            self.description.as_str(),
            self.homepage.as_str(),
            self.repository.as_str(),
            repo_url.as_str(),
        ) {
            Result::Ok(content) => Result::Ok(self.homebrewtap_templates_formula_artifact(content)),
            Result::Err(message) => Result::Err(message),
        }
    }

    /// The bucket manifest artifact: the manifest record derived from the
    /// metadata, serialized as pretty-printed JSON with its keys in a
    /// fixed order, at `bucket/<name>.json` under the tap root.
    pub fn write_scoop_bucket(&self) -> (a: Artifact)
        ensures
            a.path@ == bucket_path_spec(self.homebrew_tap_path@, self.name@),
            a.content@ == scoop_json_text(
                Seq::<char>::empty(),
                self.description@,
                self.homepage@,
                self.license@,
                release_download_url_spec(self.repository@),
                seq![scoop_bin_name_spec(self.bin.deep_view(), self.name@)],
                "github"@,
                release_download_url_spec(self.repository@),
            ),
    {
        let scoop = ScoopManifest::from_manager(self);
        let content = scoop.to_json();
        Artifact {
            path: bucket_path(self.homebrew_tap_path.as_str(), self.name.as_str()),
            content,
        }
    }

    /// The release-workflow artifact: the release template rendered in
    /// token-replace mode with the channel, the name and the two option
    /// fragments; its path is relative to the invoking directory.
    pub fn write_project_templates_formula(&self, template: &str) -> (a: Artifact)
        ensures
            a.path@ == release_workflow_rel_path_spec(self.name@),
            a.content@ == release_render_spec(
                template@,
                self.channel@,
                self.name@,
                bin_option_spec(self.bin.deep_view()),
                features_option_spec(self.features.deep_view()),
            ),
    {
        let bin_opt = bin_option(&self.bin);
        let features_opt = features_option(&self.features);
        let content = render_release_template(
            template,
            self.channel.as_str(),
            self.name.as_str(),
            bin_opt.as_str(),
            features_opt.as_str(),
        );
        Artifact { path: release_workflow_rel_path(self.name.as_str()), content }
    }
}

} // verus!
