//! The build's identity and the resolution of a templated remote prefix.

use vstd::prelude::*;
use vstd::string::*;
use crate::model::{opt_text, ConfigError, IdentityField};
use crate::text::{contains, find, lemma_replaced_absent, replace, replaced};

verus! {

/// What identifies the running build. The build id and the team name are
/// always there; the other fields are there for builds of a pipeline's job.
#[derive(Debug)]
pub struct BuildIdentity {
    pub id: String,
    pub name: Option<String>,
    pub job_name: Option<String>,
    pub pipeline_name: Option<String>,
    pub pipeline_instance_vars: Option<String>,
    pub team_name: String,
}

pub struct BuildIdentityView {
    pub id: Seq<char>,
    pub name: Option<Seq<char>>,
    pub job_name: Option<Seq<char>>,
    pub pipeline_name: Option<Seq<char>>,
    pub pipeline_instance_vars: Option<Seq<char>>,
    pub team_name: Seq<char>,
}

impl View for BuildIdentity {
    type V = BuildIdentityView;

    open spec fn view(&self) -> BuildIdentityView {
        BuildIdentityView {
            id: self.id@,
            name: opt_text(self.name),
            job_name: opt_text(self.job_name),
            pipeline_name: opt_text(self.pipeline_name),
            pipeline_instance_vars: opt_text(self.pipeline_instance_vars),
            team_name: self.team_name@,
        }
    }
}

/// The identity that the given lookups describe, or the mandatory field that
/// is absent: the build id is asked for first, then the team name.
pub open spec fn identity_of(
    id: Option<Seq<char>>,
    name: Option<Seq<char>>,
    job_name: Option<Seq<char>>,
    pipeline_name: Option<Seq<char>>,
    pipeline_instance_vars: Option<Seq<char>>,
    team_name: Option<Seq<char>>,
) -> Result<BuildIdentityView, ConfigError> {
    match id {
        None => Err(ConfigError::MissingIdentity(IdentityField::BuildId)),
        Some(id) => match team_name {
            None => Err(ConfigError::MissingIdentity(IdentityField::BuildTeamName)),
            Some(team_name) => Ok(
                BuildIdentityView { id, name, job_name, pipeline_name, pipeline_instance_vars, team_name },
            ),
        },
    }
}

/// The view of a result that holds an identity.
pub open spec fn identity_result(r: Result<BuildIdentity, ConfigError>) -> Result<
    BuildIdentityView,
    ConfigError,
> {
    match r {
        Ok(b) => Ok(b@),
        Err(e) => Err(e),
    }
}

/// `s` with the placeholder `token` filled in from `value`. Where the value is
/// absent the placeholder must not be used: `None` says that it is.
pub open spec fn filled(s: Seq<char>, token: Seq<char>, value: Option<Seq<char>>) -> Option<
    Seq<char>,
> {
    match value {
        Some(v) => Some(replaced(s, token, v)),
        None => if contains(s, token) {
            None
        } else {
            Some(s)
        },
    }
}

/// The prefix that `template` resolves to for `identity`. The placeholders are
/// filled in one after the other, each in the text that the one before left:
/// build id, build name, job name, pipeline name, team name. The error names
/// the first field that a placeholder asks for and the identity lacks.
pub open spec fn resolved(template: Seq<char>, identity: BuildIdentityView) -> Result<
    Seq<char>,
    ConfigError,
> {
    let a = replaced(template, "{BUILD_ID}"@, identity.id);
    match filled(a, "{BUILD_NAME}"@, identity.name) {
        None => Err(ConfigError::MissingIdentity(IdentityField::BuildName)),
        Some(b) => match filled(b, "{BUILD_JOB_NAME}"@, identity.job_name) {
            None => Err(ConfigError::MissingIdentity(IdentityField::BuildJobName)),
            Some(c) => match filled(c, "{BUILD_PIPELINE_NAME}"@, identity.pipeline_name) {
                None => Err(ConfigError::MissingIdentity(IdentityField::BuildPipelineName)),
                Some(d) => Ok(replaced(d, "{BUILD_TEAM_NAME}"@, identity.team_name)),
            },
        },
    }
}

/// The text of a result that holds a string.
pub open spec fn text_result(r: Result<String, ConfigError>) -> Result<Seq<char>, ConfigError> {
    match r {
        Ok(s) => Ok(s@),
        Err(e) => Err(e),
    }
}

/// Fills the placeholder `token` in `s` from `value`; `None` where the value
/// is absent and the placeholder is used.
pub fn fill(s: String, token: &str, value: &Option<String>) -> (r: Option<String>)
    ensures
        opt_text(r) == filled(s@, token@, opt_text(*value)),
{
    match value {
        Some(v) => Some(replace(s.as_str(), token, v.as_str())),
        None => if find(s.as_str(), token) {
            None
        } else {
            Some(s)
        },
    }
}

/// Resolves the placeholders of `template` from the build's identity.
pub fn resolve_prefix(template: &str, identity: &BuildIdentity) -> (r: Result<String, ConfigError>)
    ensures
        text_result(r) == resolved(template@, identity@),
{
    let a = replace(template, "{BUILD_ID}", identity.id.as_str());
    let b = match fill(a, "{BUILD_NAME}", &identity.name) {
        Some(b) => b,
        None => { return Err(ConfigError::MissingIdentity(IdentityField::BuildName)); },
    };
    let c = match fill(b, "{BUILD_JOB_NAME}", &identity.job_name) {
        Some(c) => c,
        None => { return Err(ConfigError::MissingIdentity(IdentityField::BuildJobName)); },
    };
    let d = match fill(c, "{BUILD_PIPELINE_NAME}", &identity.pipeline_name) {
        Some(d) => d,
        None => { return Err(ConfigError::MissingIdentity(IdentityField::BuildPipelineName)); },
    };
    Ok(replace(d.as_str(), "{BUILD_TEAM_NAME}", identity.team_name.as_str()))
}

/// A template that uses none of the placeholders resolves to itself, whatever
/// the build's identity holds.
pub proof fn lemma_resolved_without_tokens(template: Seq<char>, identity: BuildIdentityView)
    requires
        !contains(template, "{BUILD_ID}"@),
        !contains(template, "{BUILD_NAME}"@),
        !contains(template, "{BUILD_JOB_NAME}"@),
        !contains(template, "{BUILD_PIPELINE_NAME}"@),
        !contains(template, "{BUILD_TEAM_NAME}"@),
    ensures
        resolved(template, identity) == Ok::<Seq<char>, ConfigError>(template),
{
    lemma_replaced_absent(template, "{BUILD_ID}"@, identity.id);
    if identity.name is Some {
        lemma_replaced_absent(template, "{BUILD_NAME}"@, identity.name->0);
    }
    if identity.job_name is Some {
        lemma_replaced_absent(template, "{BUILD_JOB_NAME}"@, identity.job_name->0);
    }
    if identity.pipeline_name is Some {
        lemma_replaced_absent(template, "{BUILD_PIPELINE_NAME}"@, identity.pipeline_name->0);
    }
    lemma_replaced_absent(template, "{BUILD_TEAM_NAME}"@, identity.team_name);
}

} // verus!
