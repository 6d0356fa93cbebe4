//! Enumeration of the work items of an upload and of a download.

use vstd::prelude::*;
use vstd::string::*;
use crate::model::{
    opt_text, ConfigError, Enumerated, EnumeratedView, GlobEntry, GlobEntryView, WorkItem,
    WorkItemView,
};
use crate::paths::{download_target, file_name, key_under, path_file_name, target_in, upload_key};

verus! {

/// Whether the regular expression `pattern` matches somewhere in `text`, as the
/// `regex` crate decides it; `None` where `pattern` is no regular expression
/// that the crate compiles.
pub uninterp spec fn regex_match(pattern: Seq<char>, text: Seq<char>) -> Option<bool>;

/// Compiles `pattern` with `regex::Regex::new` and asks `regex::Regex::is_match`
/// of `text`. Nothing is claimed of the result but that it is the one named by
/// [`regex_match`]: the same pattern and text always give the same answer.
#[verifier::external_body]
pub(crate) fn is_match(pattern: &str, text: &str) -> (r: Option<bool>)
    ensures
        r == regex_match(pattern@, text@),
{
    match regex::Regex::new(pattern) {
        Ok(re) => Some(re.is_match(text)),
        Err(_) => None,
    }
}

/// What becomes of a path that is not excluded: it is uploaded under its file
/// name, or left out where it has none.
pub open spec fn queued(path: Seq<char>, prefix: Seq<char>) -> EnumeratedView {
    match path_file_name(path) {
        Some(name) => EnumeratedView::Transfer(
            WorkItemView { source: path, target: key_under(prefix, name) },
        ),
        None => EnumeratedView::Unnamed(path),
    }
}

/// What becomes of a path once the exclusion pattern has spoken: `verdict` is
/// absent where no pattern is configured, and holds `None` where the pattern
/// is no regular expression.
pub open spec fn screened(path: Seq<char>, verdict: Option<Option<bool>>, prefix: Seq<char>) -> Result<
    EnumeratedView,
    ConfigError,
> {
    match verdict {
        Some(None) => Err(ConfigError::InvalidExceptRegex),
        Some(Some(true)) => Ok(EnumeratedView::Excluded(path)),
        _ => Ok(queued(path, prefix)),
    }
}

/// What becomes of one entry of a glob expansion.
pub open spec fn classified(entry: GlobEntryView, except: Option<Seq<char>>, prefix: Seq<char>) -> Result<
    EnumeratedView,
    ConfigError,
> {
    match entry {
        GlobEntryView::Failed(e) => Ok(EnumeratedView::Unresolved(e)),
        GlobEntryView::Found(path) => screened(
            path,
            match except {
                Some(pattern) => Some(regex_match(pattern, path)),
                None => None,
            },
            prefix,
        ),
    }
}

/// What becomes of one remote key on download.
pub open spec fn fetched(key: Seq<char>, output_path: Seq<char>) -> EnumeratedView {
    match target_in(output_path, key) {
        Some(target) => EnumeratedView::Transfer(WorkItemView { source: key, target }),
        None => EnumeratedView::Unnamed(key),
    }
}

/// The view of the result of classifying one entry.
pub open spec fn enumerated_result(r: Result<Enumerated, ConfigError>) -> Result<
    EnumeratedView,
    ConfigError,
> {
    match r {
        Ok(e) => Ok(e@),
        Err(e) => Err(e),
    }
}

/// The work items among what was enumerated, in order.
pub open spec fn transfers(plan: Seq<Enumerated>) -> Seq<WorkItemView>
    decreases plan.len(),
{
    if plan.len() == 0 {
        Seq::empty()
    } else {
        match plan.last() {
            Enumerated::Transfer(w) => transfers(plan.drop_last()).push(w@),
            _ => transfers(plan.drop_last()),
        }
    }
}

/// The views of a sequence of work items.
pub open spec fn item_views(items: Seq<WorkItem>) -> Seq<WorkItemView> {
    items.map_values(|w: WorkItem| w@)
}

/// Schedules the file at `path` for upload under `prefix`, by its file name.
pub fn queue_upload(path: String, prefix: &str) -> (r: Enumerated)
    ensures
        r@ == queued(path@, prefix@),
{
    match file_name(path.as_str()) {
        Some(name) => {
            let key = upload_key(prefix, name.as_str());
            Enumerated::Transfer(WorkItem { source: path, target: key })
        },
        None => Enumerated::Unnamed(path),
    }
}

/// Decides what becomes of `path` from the verdict of the exclusion pattern.
pub fn screen(path: String, verdict: Option<Option<bool>>, prefix: &str) -> (r: Result<
    Enumerated,
    ConfigError,
>)
    ensures
        enumerated_result(r) == screened(path@, verdict, prefix@),
{
    match verdict {
        Some(None) => Err(ConfigError::InvalidExceptRegex),
        Some(Some(true)) => Ok(Enumerated::Excluded(path)),
        _ => Ok(queue_upload(path, prefix)),
    }
}

/// Decides what becomes of one entry of a glob expansion.
pub fn classify(entry: &GlobEntry, except_regex: &Option<String>, prefix: &str) -> (r: Result<
    Enumerated,
    ConfigError,
>)
    ensures
        enumerated_result(r) == classified(entry@, opt_text(*except_regex), prefix@),
{
    match entry {
        GlobEntry::Failed(e) => Ok(Enumerated::Unresolved(e.clone())),
        GlobEntry::Found(path) => {
            let verdict = match except_regex {
                Some(pattern) => Some(is_match(pattern.as_str(), path.as_str())),
                None => None,
            };
            screen(path.clone(), verdict, prefix)
        },
    }
}

/// Enumerates the uploads of a glob expansion, entry by entry and in order.
/// It fails where the exclusion pattern is asked about a path and is no
/// regular expression, and only there.
pub fn enumerate_uploads(entries: &Vec<GlobEntry>, except_regex: &Option<String>, prefix: &str) -> (r:
    Result<Vec<Enumerated>, ConfigError>)
    ensures
        r is Ok <==> forall|i: int|
            0 <= i < entries@.len() ==> classified(
                #[trigger] entries@[i]@,
                opt_text(*except_regex),
                prefix@,
            ) is Ok,
        r is Err ==> r->Err_0 == ConfigError::InvalidExceptRegex,
        r is Ok ==> r->Ok_0@.len() == entries@.len() && forall|i: int|
            0 <= i < entries@.len() ==> Ok::<EnumeratedView, ConfigError>(
                (#[trigger] r->Ok_0@[i])@,
            ) == classified(entries@[i]@, opt_text(*except_regex), prefix@),
{
    let mut plan: Vec<Enumerated> = Vec::new();
    let mut i: usize = 0;
    while i < entries.len()
        invariant
            i <= entries@.len(),
            plan@.len() == i,
            forall|j: int|
                0 <= j < i ==> Ok::<EnumeratedView, ConfigError>((#[trigger] plan@[j])@)
                    == classified(entries@[j]@, opt_text(*except_regex), prefix@),
        decreases entries@.len() - i,
    {
        match classify(&entries[i], except_regex, prefix) {
            Ok(e) => {
                plan.push(e);
            },
            Err(e) => {
                assert(!(classified(entries@[i as int]@, opt_text(*except_regex), prefix@) is Ok));
                return Err(e);
            },
        }
        i = i + 1;
    }
    assert forall|j: int| 0 <= j < entries@.len() implies classified(
        #[trigger] entries@[j]@,
        opt_text(*except_regex),
        prefix@,
    ) is Ok by {
        assert(Ok::<EnumeratedView, ConfigError>(plan@[j]@) == classified(
            entries@[j]@,
            opt_text(*except_regex),
            prefix@,
        ));
    }
    Ok(plan)
}

/// Enumerates the downloads of a listing, key by key and in order: each key
/// goes to its file name under `output_path`.
pub fn enumerate_downloads(keys: &Vec<String>, output_path: &str) -> (plan: Vec<Enumerated>)
    ensures
        plan@.len() == keys@.len(),
        forall|i: int|
            0 <= i < keys@.len() ==> (#[trigger] plan@[i])@ == fetched(keys@[i]@, output_path@),
{
    let mut plan: Vec<Enumerated> = Vec::new();
    let mut i: usize = 0;
    while i < keys.len()
        invariant
            i <= keys@.len(),
            plan@.len() == i,
            forall|j: int| 0 <= j < i ==> (#[trigger] plan@[j])@ == fetched(keys@[j]@, output_path@),
        decreases keys@.len() - i,
    {
        let key = keys[i].clone();
        let entry = match download_target(output_path, key.as_str()) {
            Some(target) => Enumerated::Transfer(WorkItem { source: key, target }),
            None => Enumerated::Unnamed(key),
        };
        plan.push(entry);
        i = i + 1;
    }
    plan
}

/// The number of entries of `plan` that are transferred is the number of its
/// work items, and no more than the number of its entries.
pub proof fn lemma_transfers_len(plan: Seq<Enumerated>)
    ensures
        transfers(plan).len() <= plan.len(),
    decreases plan.len(),
{
    if plan.len() > 0 {
        lemma_transfers_len(plan.drop_last());
    }
}

/// Counts the work items among what was enumerated.
pub fn count_transfers(plan: &Vec<Enumerated>) -> (n: usize)
    ensures
        n == transfers(plan@).len(),
{
    let mut n: usize = 0;
    proof {
        assert(plan@.subrange(0, 0) =~= Seq::<Enumerated>::empty());
    }
    let mut i: usize = 0;
    while i < plan.len()
        invariant
            i <= plan@.len(),
            n <= i,
            n == transfers(plan@.subrange(0, i as int)).len(),
        decreases plan@.len() - i,
    {
        proof {
            let upto = plan@.subrange(0, i + 1);
            assert(upto.drop_last() =~= plan@.subrange(0, i as int));
            assert(upto.last() == plan@[i as int]);
        }
        match &plan[i] {
            Enumerated::Transfer(_) => {
                n = n + 1;
            },
            _ => {},
        }
        i = i + 1;
    }
    assert(plan@.subrange(0, plan@.len() as int) =~= plan@);
    n
}

/// Collects the work items among what was enumerated, in order.
pub fn work_items(plan: &Vec<Enumerated>) -> (items: Vec<WorkItem>)
    ensures
        item_views(items@) == transfers(plan@),
{
    let mut items: Vec<WorkItem> = Vec::new();
    proof {
        assert(plan@.subrange(0, 0) =~= Seq::<Enumerated>::empty());
        assert(item_views(items@) =~= Seq::<WorkItemView>::empty());
    }
    let mut i: usize = 0;
    while i < plan.len()
        invariant
            i <= plan@.len(),
            item_views(items@) == transfers(plan@.subrange(0, i as int)),
        decreases plan@.len() - i,
    {
        let ghost before = items@;
        proof {
            let upto = plan@.subrange(0, i + 1);
            assert(upto.drop_last() =~= plan@.subrange(0, i as int));
            assert(upto.last() == plan@[i as int]);
        }
        match &plan[i] {
            Enumerated::Transfer(w) => {
                let item = WorkItem { source: w.source.clone(), target: w.target.clone() };
                items.push(item);
                assert(item_views(items@) =~= item_views(before).push(w@));
            },
            _ => {},
        }
        i = i + 1;
    }
    assert(plan@.subrange(0, plan@.len() as int) =~= plan@);
    items
}

} // verus!
