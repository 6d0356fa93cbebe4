//! The resource's three operations, as far as they decide and compute: what a
//! check reports, what a download fetches and where to, what an upload sends
//! and under which version.

use vstd::prelude::*;
use vstd::string::*;
use crate::dispatch::{
    after_joins, after_spawns, lemma_batch_attempts_all, next_action, started, Action, Dispatcher,
    DispatcherView, TransferOutcome,
};
use crate::enumerate::{
    classified, count_transfers, enumerate_downloads, enumerate_uploads, fetched, transfers,
};
use crate::model::{opt_text, ConfigError, Enumerated, EnumeratedView, GlobEntry, IdentityField};
use crate::template::{
    identity_of, identity_result, resolve_prefix, resolved, BuildIdentity, BuildIdentityView,
};

verus! {

/// The resource: a bucket that is written to and read from by prefix, and
/// never checked for new versions.
pub struct S3WriteOnly;

/// The remote prefix that a set of objects lives under.
#[derive(Debug, Clone)]
pub struct Version {
    pub path: String,
}

/// The bucket and how to reach it. The credential fields are handed on to the
/// storage client and read by nothing here.
#[derive(Debug, Clone)]
pub struct Source {
    pub bucket: String,
    pub access_key_id: Option<String>,
    pub secret_access_key: Option<String>,
    pub session_token: Option<String>,
    pub aws_role_arn: Option<String>,
    pub region_name: Option<String>,
}

/// The parameters of a download: there are none.
#[derive(Debug, Clone)]
pub struct InParams {}

/// The parameters of an upload: which files, which of them not, and where to.
#[derive(Debug, Clone)]
pub struct OutParams {
    pub glob: String,
    pub except_regex: Option<String>,
    pub s3_prefix: String,
}

/// What is reported of a transfer beside its version.
#[derive(Debug, Clone)]
pub struct Metadata {
    pub path: String,
}

/// What a download reports.
#[derive(Debug)]
pub struct InOutput {
    pub version: Version,
    pub metadata: Option<Metadata>,
}

/// What an upload reports.
#[derive(Debug)]
pub struct OutOutput {
    pub version: Version,
    pub metadata: Option<Metadata>,
}

/// What to ask the bucket's listing for.
#[derive(Debug)]
pub struct ListRequest {
    pub bucket: String,
    pub region: String,
    pub prefix: String,
}

/// A batch of transfers against one bucket, and what to report once every
/// handle has resolved.
#[derive(Debug)]
pub struct InPlan {
    pub bucket: String,
    pub region: String,
    pub entries: Vec<Enumerated>,
    pub output: InOutput,
}

/// A batch of uploads under one resolved prefix, and what to report once
/// every handle has resolved.
#[derive(Debug)]
pub struct OutPlan {
    pub bucket: String,
    pub region: String,
    pub prefix: String,
    pub entries: Vec<Enumerated>,
    pub output: OutOutput,
}

impl Default for Source {
    fn default() -> (s: Source)
        ensures
            s.bucket@.len() == 0,
            s.access_key_id is None,
            s.secret_access_key is None,
            s.session_token is None,
            s.aws_role_arn is None,
            s.region_name is None,
    {
        Source {
            bucket: String::new(),
            access_key_id: None,
            secret_access_key: None,
            session_token: None,
            aws_role_arn: None,
            region_name: None,
        }
    }
}

impl Default for InParams {
    fn default() -> (p: InParams) {
        InParams {  }
    }
}

impl Default for OutParams {
    fn default() -> (p: OutParams)
        ensures
            p.glob@.len() == 0,
            p.except_regex is None,
            p.s3_prefix@.len() == 0,
    {
        OutParams { glob: String::new(), except_regex: None, s3_prefix: String::new() }
    }
}

/// The region that requests go to: the configured one, or `us-east-1`.
pub open spec fn region_text(region_name: Option<Seq<char>>) -> Seq<char> {
    match region_name {
        Some(r) => r,
        None => "us-east-1"@,
    }
}

/// The pattern that the glob expansion is made with: the input directory, a
/// slash, and the configured pattern.
pub open spec fn pattern_text(input_path: Seq<char>, glob: Seq<char>) -> Seq<char> {
    input_path + seq!['/'] + glob
}

/// The entries of `plan` are what a listing of `keys` gives under
/// `output_path`, key by key.
pub open spec fn fetches(plan: Seq<Enumerated>, keys: Seq<String>, output_path: Seq<char>) -> bool {
    &&& plan.len() == keys.len()
    &&& forall|i: int| 0 <= i < keys.len() ==> (#[trigger] plan[i])@ == fetched(keys[i]@, output_path)
}

/// Every entry can be classified: the exclusion pattern, where it is asked,
/// is a regular expression.
pub open spec fn classifiable(entries: Seq<GlobEntry>, except: Option<Seq<char>>, prefix: Seq<char>) -> bool {
    forall|i: int| 0 <= i < entries.len() ==> classified(#[trigger] entries[i]@, except, prefix) is Ok
}

/// The entries of `plan` are what the glob expansion `entries` gives, entry by
/// entry.
pub open spec fn uploads(
    plan: Seq<Enumerated>,
    entries: Seq<GlobEntry>,
    except: Option<Seq<char>>,
    prefix: Seq<char>,
) -> bool {
    &&& plan.len() == entries.len()
    &&& forall|i: int|
        0 <= i < entries.len() ==> Ok::<EnumeratedView, ConfigError>((#[trigger] plan[i])@)
            == classified(entries[i]@, except, prefix)
}

/// What a download owes for the given inputs: it fails only without a
/// source; else it fetches every listed key into the output directory and
/// reports the version it was given, with the version's path as metadata.
pub open spec fn in_planned(
    source: Option<Source>,
    version: Version,
    output_path: Seq<char>,
    listed: Seq<String>,
    r: Result<InPlan, ConfigError>,
) -> bool {
    match source {
        None => r is Err && r->Err_0 == ConfigError::MissingSource,
        Some(s) => {
            &&& r is Ok
            &&& r->Ok_0.bucket@ == s.bucket@
            &&& r->Ok_0.region@ == region_text(opt_text(s.region_name))
            &&& fetches(r->Ok_0.entries@, listed, output_path)
            &&& r->Ok_0.output.version.path@ == version.path@
            &&& r->Ok_0.output.metadata is Some
            &&& r->Ok_0.output.metadata->0.path@ == version.path@
        },
    }
}

/// What an upload owes for the given inputs. It fails without a source,
/// without parameters, where the prefix does not resolve, and where the
/// exclusion pattern is no regular expression, in this order and on nothing
/// else; else it uploads what the entries give under the resolved prefix and
/// reports that prefix as the version, without metadata.
pub open spec fn out_planned(
    source: Option<Source>,
    params: Option<OutParams>,
    identity: BuildIdentityView,
    entries: Seq<GlobEntry>,
    r: Result<OutPlan, ConfigError>,
) -> bool {
    match (source, params) {
        (None, _) => r is Err && r->Err_0 == ConfigError::MissingSource,
        (Some(_), None) => r is Err && r->Err_0 == ConfigError::MissingParams,
        (Some(s), Some(p)) => match resolved(p.s3_prefix@, identity) {
            Err(e) => r is Err && r->Err_0 == e,
            Ok(prefix) => if classifiable(entries, opt_text(p.except_regex), prefix) {
                &&& r is Ok
                &&& r->Ok_0.bucket@ == s.bucket@
                &&& r->Ok_0.region@ == region_text(opt_text(s.region_name))
                &&& r->Ok_0.prefix@ == prefix
                &&& uploads(r->Ok_0.entries@, entries, opt_text(p.except_regex), prefix)
                &&& r->Ok_0.output.version.path@ == prefix
                &&& r->Ok_0.output.metadata is None
            } else {
                r is Err && r->Err_0 == ConfigError::InvalidExceptRegex
            },
        },
    }
}

/// The batch `batch` is that of `entries`, and every handle of it has
/// resolved. Which outcomes the handles resolved with plays no part.
pub open spec fn concluded(entries: Seq<Enumerated>, batch: DispatcherView) -> bool {
    batch.total == transfers(entries).len() && next_action(batch) == Action::Finish
}

impl InPlan {
    /// The dispatcher of this plan's batch.
    pub fn dispatcher(&self) -> (d: Dispatcher)
        ensures
            d.wf(),
            d@ == started(transfers(self.entries@).len()),
    {
        Dispatcher::new(count_transfers(&self.entries))
    }

    /// What the download reports, once every handle of its batch has
    /// resolved: the planned output, whether the transfers succeeded or
    /// failed. Before that, and for the batch of another plan, `None`.
    pub fn conclude(self, batch: &Dispatcher) -> (r: Option<InOutput>)
        requires
            batch.wf(),
        ensures
            r is Some <==> concluded(self.entries@, batch@),
            r is Some ==> r->0 == self.output,
    {
        if batch.total() == count_transfers(&self.entries) && batch.is_done() {
            Some(self.output)
        } else {
            None
        }
    }
}

impl OutPlan {
    /// The dispatcher of this plan's batch.
    pub fn dispatcher(&self) -> (d: Dispatcher)
        ensures
            d.wf(),
            d@ == started(transfers(self.entries@).len()),
    {
        Dispatcher::new(count_transfers(&self.entries))
    }

    /// What the upload reports, once every handle of its batch has resolved:
    /// the planned output, whether the transfers succeeded or failed. Before
    /// that, and for the batch of another plan, `None`.
    pub fn conclude(self, batch: &Dispatcher) -> (r: Option<OutOutput>)
        requires
            batch.wf(),
        ensures
            r is Some <==> concluded(self.entries@, batch@),
            r is Some ==> r->0 == self.output,
    {
        if batch.total() == count_transfers(&self.entries) && batch.is_done() {
            Some(self.output)
        } else {
            None
        }
    }
}

/// Failures do not fail the invocation: once each work item of a plan had its
/// task spawned and its handle resolved, the plan is concluded, whichever of
/// the outcomes are failures, be it all of them.
pub proof fn lemma_failures_do_not_fail_batch(entries: Seq<Enumerated>, outcomes: Seq<TransferOutcome>)
    requires
        transfers(entries).len() <= usize::MAX,
        outcomes.len() == transfers(entries).len(),
    ensures
        concluded(
            entries,
            after_joins(
                after_spawns(started(transfers(entries).len()), transfers(entries).len()),
                outcomes,
            ),
        ),
{
    lemma_batch_attempts_all(transfers(entries).len(), outcomes);
}

/// With nothing to transfer a plan is concluded from the start: no task is
/// spawned and no handle waited for.
pub proof fn lemma_empty_plan_is_concluded(entries: Seq<Enumerated>)
    requires
        transfers(entries).len() == 0,
    ensures
        concluded(entries, started(transfers(entries).len())),
{
}

/// The region that requests for `source` go to.
pub fn region_of(source: &Source) -> (r: String)
    ensures
        r@ == region_text(opt_text(source.region_name)),
{
    match &source.region_name {
        Some(r) => r.clone(),
        None => String::from_str("us-east-1"),
    }
}

/// The pattern that the glob expansion of an upload is made with.
pub fn glob_pattern(input_path: &str, glob: &str) -> (r: String)
    ensures
        r@ == pattern_text(input_path@, glob@),
{
    proof {
        reveal_strlit("/");
        assert("/"@ =~= seq!['/']);
    }
    String::from_str(input_path).concat("/").concat(glob)
}

/// What to list for a download of `version`: the bucket, the region, and the
/// version's path as prefix. It fails only without a source.
pub fn list_request(source: &Option<Source>, version: &Version) -> (r: Result<ListRequest, ConfigError>)
    ensures
        match *source {
            None => r is Err && r->Err_0 == ConfigError::MissingSource,
            Some(s) => {
                &&& r is Ok
                &&& r->Ok_0.bucket@ == s.bucket@
                &&& r->Ok_0.region@ == region_text(opt_text(s.region_name))
                &&& r->Ok_0.prefix@ == version.path@
            },
        },
{
    match source {
        None => Err(ConfigError::MissingSource),
        Some(s) => Ok(
            ListRequest { bucket: s.bucket.clone(), region: region_of(s), prefix: version.path.clone() },
        ),
    }
}

impl S3WriteOnly {
    /// Assembles the build's identity from what was looked up for each field.
    /// The build id and the team name are mandatory.
    pub fn build_metadata(
        id: Option<String>,
        name: Option<String>,
        job_name: Option<String>,
        pipeline_name: Option<String>,
        pipeline_instance_vars: Option<String>,
        team_name: Option<String>,
    ) -> (r: Result<BuildIdentity, ConfigError>)
        ensures
            identity_result(r) == identity_of(
                opt_text(id),
                opt_text(name),
                opt_text(job_name),
                opt_text(pipeline_name),
                opt_text(pipeline_instance_vars),
                opt_text(team_name),
            ),
    {
        match id {
            None => Err(ConfigError::MissingIdentity(IdentityField::BuildId)),
            Some(id) => match team_name {
                None => Err(ConfigError::MissingIdentity(IdentityField::BuildTeamName)),
                Some(team_name) => Ok(
                    BuildIdentity { id, name, job_name, pipeline_name, pipeline_instance_vars, team_name },
                ),
            },
        }
    }

    /// Reports the versions that a check finds: the one it was given, if any,
    /// and never another.
    pub fn resource_check(source: Option<Source>, version: Option<Version>) -> (r: Vec<Version>)
        ensures
            match version {
                Some(v) => r@ == seq![v],
                None => r@ == Seq::<Version>::empty(),
            },
    {
        match version {
            Some(v) => {
                let r = vec![v];
                assert(r@ =~= seq![v]);
                r
            },
            None => Vec::new(),
        }
    }

    /// Plans the download of `version`: each key that the listing gave goes to
    /// its file name under `output_path`.
    pub fn resource_in(
        source: Option<Source>,
        version: Version,
        params: Option<InParams>,
        output_path: &str,
        listed: &Vec<String>,
    ) -> (r: Result<InPlan, ConfigError>)
        ensures
            in_planned(source, version, output_path@, listed@, r),
    {
        match source {
            None => Err(ConfigError::MissingSource),
            Some(s) => {
                let region = region_of(&s);
                let entries = enumerate_downloads(listed, output_path);
                let path = version.path.clone();
                Ok(
                    InPlan {
                        bucket: s.bucket,
                        region,
                        entries,
                        output: InOutput { version, metadata: Some(Metadata { path }) },
                    },
                )
            },
        }
    }

    /// Plans the upload of what a glob expansion gave: resolves the prefix
    /// from the build's identity, leaves out what the exclusion pattern
    /// matches, and gives each remaining file its key under the prefix.
    pub fn resource_out(
        source: Option<Source>,
        params: Option<OutParams>,
        identity: &BuildIdentity,
        entries: &Vec<GlobEntry>,
    ) -> (r: Result<OutPlan, ConfigError>)
        ensures
            out_planned(source, params, identity@, entries@, r),
    {
        let s = match source {
            Some(s) => s,
            None => { return Err(ConfigError::MissingSource); },
        };
        let p = match params {
            Some(p) => p,
            None => { return Err(ConfigError::MissingParams); },
        };
        let prefix = match resolve_prefix(p.s3_prefix.as_str(), identity) {
            Ok(prefix) => prefix,
            Err(e) => { return Err(e); },
        };
        let planned = match enumerate_uploads(entries, &p.except_regex, prefix.as_str()) {
            Ok(planned) => planned,
            Err(e) => { return Err(e); },
        };
        let region = region_of(&s);
        let path = prefix.clone();
        Ok(
            OutPlan {
                bucket: s.bucket,
                region,
                prefix,
                entries: planned,
                output: OutOutput { version: Version { path }, metadata: None },
            },
        )
    }
}

/// The version that an upload reports is decided by the prefix template and
/// the build's identity alone: two uploads with the same parameters and the
/// same identity report the same version, whatever files each of them found.
pub proof fn lemma_out_version_repeats(
    source: Option<Source>,
    params: Option<OutParams>,
    identity: BuildIdentityView,
    first_entries: Seq<GlobEntry>,
    second_entries: Seq<GlobEntry>,
    first: Result<OutPlan, ConfigError>,
    second: Result<OutPlan, ConfigError>,
)
    requires
        out_planned(source, params, identity, first_entries, first),
        out_planned(source, params, identity, second_entries, second),
        first is Ok,
        second is Ok,
    ensures
        first->Ok_0.output.version.path@ == second->Ok_0.output.version.path@,
        resolved(params->0.s3_prefix@, identity) == Ok::<Seq<char>, ConfigError>(
            first->Ok_0.output.version.path@,
        ),
{
}

/// An upload is decided by its inputs: two uploads with the same source,
/// parameters, identity and entries both fail with the same error, or both
/// succeed with the same bucket, region, prefix and version.
pub proof fn lemma_out_repeats(
    source: Option<Source>,
    params: Option<OutParams>,
    identity: BuildIdentityView,
    entries: Seq<GlobEntry>,
    first: Result<OutPlan, ConfigError>,
    second: Result<OutPlan, ConfigError>,
)
    requires
        out_planned(source, params, identity, entries, first),
        out_planned(source, params, identity, entries, second),
    ensures
        first is Ok <==> second is Ok,
        first is Err ==> first->Err_0 == second->Err_0,
        first is Ok ==> {
            &&& first->Ok_0.output.version.path@ == second->Ok_0.output.version.path@
            &&& first->Ok_0.prefix@ == second->Ok_0.prefix@
            &&& first->Ok_0.bucket@ == second->Ok_0.bucket@
            &&& first->Ok_0.region@ == second->Ok_0.region@
            &&& first->Ok_0.entries@.len() == second->Ok_0.entries@.len()
            &&& forall|i: int|
                0 <= i < entries.len() ==> (#[trigger] first->Ok_0.entries@[i])@
                    == second->Ok_0.entries@[i]@
        },
{
    if first is Ok {
        let p = params->0;
        let prefix = resolved(p.s3_prefix@, identity)->Ok_0;
        assert forall|i: int| 0 <= i < entries.len() implies (#[trigger] first->Ok_0.entries@[i])@
            == second->Ok_0.entries@[i]@ by {
            let c = classified(entries[i]@, opt_text(p.except_regex), prefix);
            assert(Ok::<EnumeratedView, ConfigError>(first->Ok_0.entries@[i]@) == c);
            assert(Ok::<EnumeratedView, ConfigError>(second->Ok_0.entries@[i]@) == c);
        }
    }
}

/// A download of an empty listing succeeds without a single transfer: its
/// plan has no entry, its batch asks for no task, and it is concluded from
/// the start.
pub proof fn lemma_empty_listing(
    source: Option<Source>,
    version: Version,
    output_path: Seq<char>,
    listed: Seq<String>,
    r: Result<InPlan, ConfigError>,
)
    requires
        source is Some,
        listed.len() == 0,
        in_planned(source, version, output_path, listed, r),
    ensures
        r is Ok,
        r->Ok_0.entries@.len() == 0,
        transfers(r->Ok_0.entries@).len() == 0,
        next_action(started(transfers(r->Ok_0.entries@).len())) == Action::Finish,
        concluded(r->Ok_0.entries@, started(transfers(r->Ok_0.entries@).len())),
{
}

/// A download with a source succeeds and reports the version it was given,
/// and that version's path as metadata, whatever the listing held.
pub proof fn lemma_in_reports_version(
    source: Option<Source>,
    version: Version,
    output_path: Seq<char>,
    listed: Seq<String>,
    r: Result<InPlan, ConfigError>,
)
    requires
        source is Some,
        in_planned(source, version, output_path, listed, r),
    ensures
        r is Ok,
        r->Ok_0.output.version.path@ == version.path@,
        r->Ok_0.output.metadata is Some,
        r->Ok_0.output.metadata->0.path@ == version.path@,
        r->Ok_0.entries@.len() == listed.len(),
{
}

} // verus!
