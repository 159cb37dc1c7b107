//! The publish orchestrator: which adapters a submission starts, and how
//! their outcomes fold into one result.

use vstd::prelude::*;
use vstd::string::*;
use crate::bluesky::post_to_bluesky;
use crate::config::{Config, ConfigView};
use crate::mastodon::post_to_mastodon;
use crate::microblog::post_to_microblog;
use crate::nostr::post_to_nostr;
use crate::session::{follows, optional_str, Session, SessionView};
use crate::social::{ErrorKind, Failure, PostError, Reply, Step, StepView};
use crate::{bluesky, mastodon, microblog, nostr};

verus! {

/// The four platforms, in the order in which a submission takes them.
#[derive(Debug, Clone, Copy, PartialEq, Eq, Structural)]
pub enum Platform {
    Bluesky,
    Mastodon,
    MicroBlog,
    Nostr,
}

impl Platform {
    /// The name under which a platform's failure is reported.
    pub open spec fn label(self) -> Seq<char> {
        match self {
            Platform::Bluesky => "Bluesky"@,
            Platform::Mastodon => "Mastodon"@,
            Platform::MicroBlog => "Micro.Blog"@,
            Platform::Nostr => "Nostr"@,
        }
    }

    /// The name under which a platform's failure is reported.
    pub fn name(&self) -> (name: &'static str)
        ensures
            name@ == self.label(),
    {
        match self {
            Platform::Bluesky => "Bluesky",
            Platform::Mastodon => "Mastodon",
            Platform::MicroBlog => "Micro.Blog",
            Platform::Nostr => "Nostr",
        }
    }
}

/// Which platforms the user chose for one submission.
#[derive(Debug, Clone, Copy, PartialEq, Eq, Structural)]
pub struct Selection {
    pub bluesky: bool,
    pub mastodon: bool,
    pub microblog: bool,
    pub nostr: bool,
}

impl Selection {
    /// Whether a platform is chosen.
    pub open spec fn includes(self, platform: Platform) -> bool {
        match platform {
            Platform::Bluesky => self.bluesky,
            Platform::Mastodon => self.mastodon,
            Platform::MicroBlog => self.microblog,
            Platform::Nostr => self.nostr,
        }
    }

    /// The chosen platforms, in order.
    pub open spec fn platforms(self) -> Seq<Platform> {
        let none = Seq::<Platform>::empty();
        let a = if self.bluesky {
            none.push(Platform::Bluesky)
        } else {
            none
        };
        let b = if self.mastodon {
            a.push(Platform::Mastodon)
        } else {
            a
        };
        let c = if self.microblog {
            b.push(Platform::MicroBlog)
        } else {
            b
        };
        if self.nostr {
            c.push(Platform::Nostr)
        } else {
            c
        }
    }
}

/// Whether a post to a platform may begin so, as the platform's adapter
/// says.
pub open spec fn begins(
    platform: Platform,
    config: ConfigView,
    text: Seq<char>,
    image: Option<Seq<char>>,
    next: (SessionView, StepView),
) -> bool {
    match platform {
        Platform::Bluesky => next == bluesky::start(config.bluesky, text, image),
        Platform::Mastodon => mastodon::starts(config.mastodon, text, image, next),
        Platform::MicroBlog => next == microblog::start(config.microblog, text, image),
        Platform::Nostr => nostr::starts(config.nostr, text, next),
    }
}

/// Whether a platform's settings allow a post.
pub open spec fn ready(platform: Platform, config: ConfigView) -> bool {
    match platform {
        Platform::Bluesky => bluesky::ready(config.bluesky),
        Platform::Mastodon => mastodon::ready(config.mastodon),
        Platform::MicroBlog => microblog::ready(config.microblog),
        Platform::Nostr => nostr::ready(config.nostr),
    }
}

/// The words with which an adapter refuses to post without its settings.
pub open spec fn not_configured(platform: Platform) -> Seq<char> {
    match platform {
        Platform::Bluesky => "Bluesky not configured"@,
        Platform::Mastodon => "Mastodon not configured"@,
        Platform::MicroBlog => "Micro.Blog not configured"@,
        Platform::Nostr => "Nostr not configured"@,
    }
}

/// A platform that is disabled, or lacks a field that it needs, fails at
/// once with an `Auth` error, and asks for no call.
pub proof fn lemma_unready_fails_fast(
    platform: Platform,
    config: ConfigView,
    text: Seq<char>,
    image: Option<Seq<char>>,
    next: (SessionView, StepView),
)
    requires
        !ready(platform, config),
        begins(platform, config, text, image, next),
    ensures
        next == (SessionView::Finished, StepView::failed(ErrorKind::Auth, not_configured(platform))),
        !next.1.is_network_call(),
{
}

/// A post that has ended asks for no call, whatever is handed to it.
pub proof fn lemma_finished_stays_quiet(reply: Reply, next: (SessionView, StepView))
    requires
        follows(SessionView::Finished, reply, next),
    ensures
        next.0 is Finished,
        !next.1.is_network_call(),
{
}

/// One platform's post under way.
#[derive(Debug, PartialEq)]
pub struct Posting {
    /// The platform.
    pub platform: Platform,
    /// Where the post stands.
    pub session: Session,
    /// What it asks for.
    pub step: Step,
}

/// Begins a post to one platform. A platform whose settings do not allow a
/// post fails at once with an `Auth` error, and asks for no call.
pub fn start_post(platform: Platform, config: &Config, text: &str, image_path: Option<&str>) -> (posting:
    Posting)
    ensures
        posting.platform == platform,
        begins(
            platform,
            config@,
            text@,
            optional_str(image_path),
            (posting.session@, posting.step@),
        ),
        !ready(platform, config@) ==> posting.session@ is Finished
            && !posting.step@.is_network_call(),
{
    let (session, step) = match platform {
        Platform::Bluesky => post_to_bluesky(&config.bluesky, text, image_path),
        Platform::Mastodon => post_to_mastodon(&config.mastodon, text, image_path),
        Platform::MicroBlog => post_to_microblog(&config.microblog, text, image_path),
        Platform::Nostr => post_to_nostr(&config.nostr, text, image_path),
    };
    Posting { platform, session, step }
}

/// Whether `postings` is what a submission may start: one post for each
/// chosen platform, in order, each begun as its adapter says, and nothing for
/// a platform that was not chosen.
pub open spec fn planned(
    selection: Selection,
    config: ConfigView,
    text: Seq<char>,
    image: Option<Seq<char>>,
    postings: Seq<Posting>,
) -> bool {
    &&& postings.len() == selection.platforms().len()
    &&& forall|i: int|
        0 <= i < postings.len() ==> (#[trigger] postings[i]).platform == selection.platforms()[i]
            && begins(
            postings[i].platform,
            config,
            text,
            image,
            (postings[i].session@, postings[i].step@),
        )
}

/// Starts a submission: begins a post to each chosen platform. The posts are
/// independent of each other; each is then carried on by `Session::advance`
/// until it is done, and the outcomes go to `aggregate`.
pub fn submit(text: &str, image_path: Option<&str>, selection: Selection, config: &Config) -> (postings:
    Vec<Posting>)
    ensures
        planned(selection, config@, text@, optional_str(image_path), postings@),
{
    let mut postings: Vec<Posting> = Vec::new();
    if selection.bluesky {
        postings.push(start_post(Platform::Bluesky, config, text, image_path));
    }
    if selection.mastodon {
        postings.push(start_post(Platform::Mastodon, config, text, image_path));
    }
    if selection.microblog {
        postings.push(start_post(Platform::MicroBlog, config, text, image_path));
    }
    if selection.nostr {
        postings.push(start_post(Platform::Nostr, config, text, image_path));
    }
    postings
}

/// One platform's failure, under the platform's name.
#[derive(Debug, PartialEq)]
pub struct PlatformFailure {
    pub platform: Platform,
    pub error: PostError,
}

impl View for PlatformFailure {
    type V = (Platform, Failure);

    open spec fn view(&self) -> (Platform, Failure) {
        (self.platform, self.error@)
    }
}

/// What a row of failures holds.
pub open spec fn failure_views(failures: Seq<PlatformFailure>) -> Seq<(Platform, Failure)> {
    Seq::new(failures.len(), |i: int| failures[i]@)
}

/// The failures of a submission, in the order of the platforms. It is never
/// made empty by this library: no failure at all is success.
#[derive(Debug, PartialEq)]
pub struct AggregatedError {
    pub failures: Vec<PlatformFailure>,
}

impl View for AggregatedError {
    type V = Seq<(Platform, Failure)>;

    open spec fn view(&self) -> Seq<(Platform, Failure)> {
        failure_views(self.failures@)
    }
}

/// The failures among a row of outcomes, each under its platform, in the
/// order in which they stand.
pub open spec fn failures_of(outcomes: Seq<(Platform, Result<(), PostError>)>) -> Seq<
    (Platform, Failure),
>
    decreases outcomes.len(),
{
    if outcomes.len() == 0 {
        Seq::empty()
    } else {
        let before = failures_of(outcomes.drop_last());
        match outcomes.last().1 {
            Ok(()) => before,
            Err(e) => before.push((outcomes.last().0, e@)),
        }
    }
}

/// How many of a row of outcomes are failures.
pub open spec fn failure_count(outcomes: Seq<(Platform, Result<(), PostError>)>) -> nat
    decreases outcomes.len(),
{
    if outcomes.len() == 0 {
        0
    } else {
        failure_count(outcomes.drop_last()) + if outcomes.last().1 is Err {
            1nat
        } else {
            0nat
        }
    }
}

/// Folds the outcomes of a submission into one result: success where no
/// platform failed, and otherwise every failure, under its platform's name,
/// in the order of the outcomes. A success leaves no entry.
pub fn aggregate(outcomes: Vec<(Platform, Result<(), PostError>)>) -> (res: Result<
    (),
    AggregatedError,
>)
    ensures
        res is Ok <==> failures_of(outcomes@).len() == 0,
        res is Err ==> res->Err_0@ == failures_of(outcomes@),
{
    let mut failures: Vec<PlatformFailure> = Vec::new();
    let ghost all = outcomes@;
    let mut i: usize = 0;
    let n = outcomes.len();
    while i < n
        invariant
            i <= n == all.len(),
            outcomes@ == all,
            failure_views(failures@) == failures_of(all.take(i as int)),
        decreases n - i,
    {
        proof {
            assert(all.take(i + 1).drop_last() =~= all.take(i as int));
            assert(all.take(i + 1).last() == all[i as int]);
        }
        let ghost before = failures@;
        match &outcomes[i].1 {
            Err(e) => {
                failures.push(PlatformFailure { platform: outcomes[i].0, error: e.clone() });
                assert(failure_views(failures@) =~= failure_views(before).push(
                    (all[i as int].0, e@),
                ));
            },
            Ok(()) => {},
        }
        i += 1;
    }
    assert(all.take(n as int) =~= all);
    if failures.len() == 0 {
        Ok(())
    } else {
        Err(AggregatedError { failures })
    }
}

/// The failures of a row of outcomes are as many as its failed outcomes.
pub proof fn lemma_failures_counted(outcomes: Seq<(Platform, Result<(), PostError>)>)
    ensures
        failures_of(outcomes).len() == failure_count(outcomes),
    decreases outcomes.len(),
{
    if outcomes.len() > 0 {
        lemma_failures_counted(outcomes.drop_last());
    }
}

/// Outcomes that all succeeded leave no failure.
pub proof fn lemma_all_succeeded(outcomes: Seq<(Platform, Result<(), PostError>)>)
    requires
        forall|j: int| 0 <= j < outcomes.len() ==> (#[trigger] outcomes[j]).1 is Ok,
    ensures
        failures_of(outcomes) == Seq::<(Platform, Failure)>::empty(),
    decreases outcomes.len(),
{
    if outcomes.len() > 0 {
        assert forall|j: int| 0 <= j < outcomes.drop_last().len() implies (
        #[trigger] outcomes.drop_last()[j]).1 is Ok by {
            assert(outcomes.drop_last()[j] == outcomes[j]);
        }
        lemma_all_succeeded(outcomes.drop_last());
        assert(outcomes.last() == outcomes[outcomes.len() - 1]);
    }
}

/// Where exactly one of the outcomes failed, the aggregate holds exactly one
/// entry: that failure, under the name of its platform. The successes leave
/// none.
pub proof fn lemma_single_failure(outcomes: Seq<(Platform, Result<(), PostError>)>, failed: int)
    requires
        0 <= failed < outcomes.len(),
        outcomes[failed].1 is Err,
        forall|j: int|
            0 <= j < outcomes.len() && j != failed ==> (#[trigger] outcomes[j]).1 is Ok,
    ensures
        failures_of(outcomes) == seq![(outcomes[failed].0, outcomes[failed].1->Err_0@)],
    decreases outcomes.len(),
{
    let rest = outcomes.drop_last();
    let last = outcomes.len() - 1;
    assert(outcomes.last() == outcomes[last]);
    if failed == last {
        assert forall|j: int| 0 <= j < rest.len() implies (#[trigger] rest[j]).1 is Ok by {
            assert(rest[j] == outcomes[j]);
        }
        lemma_all_succeeded(rest);
        assert(failures_of(outcomes) =~= seq![(outcomes[failed].0, outcomes[failed].1->Err_0@)]);
    } else {
        assert forall|j: int| 0 <= j < rest.len() && j != failed implies (#[trigger] rest[j]).1
            is Ok by {
            assert(rest[j] == outcomes[j]);
        }
        assert(rest[failed] == outcomes[failed]);
        lemma_single_failure(rest, failed);
    }
}

/// The text shown for one failure: the platform's name, then the error's
/// own text.
pub open spec fn entry_text(entry: (Platform, Failure)) -> Seq<char> {
    entry.0.label() + ": "@ + entry.1.text()
}

/// The text shown for a row of failures: their texts, joined by semicolons.
pub open spec fn joined(entries: Seq<(Platform, Failure)>) -> Seq<char>
    decreases entries.len(),
{
    if entries.len() == 0 {
        Seq::empty()
    } else if entries.len() == 1 {
        entry_text(entries[0])
    } else {
        joined(entries.drop_last()) + "; "@ + entry_text(entries.last())
    }
}

impl PlatformFailure {
    /// The text shown for this failure.
    pub fn to_string(&self) -> (text: String)
        ensures
            text@ == entry_text(self@),
    {
        let mut text = self.platform.name().to_owned();
        text.append(": ");
        text.append(self.error.to_string().as_str());
        text
    }
}

impl AggregatedError {
    /// The text shown for the failures, in order.
    pub fn to_string(&self) -> (text: String)
        ensures
            text@ == joined(self@),
    {
        let mut text = String::new();
        let mut i: usize = 0;
        while i < self.failures.len()
            invariant
                i <= self.failures@.len(),
                text@ == joined(self@.take(i as int)),
            decreases self.failures@.len() - i,
        {
            proof {
                assert(self@.take(i + 1).drop_last() =~= self@.take(i as int));
                assert(self@.take(i + 1).last() == self.failures@[i as int]@);
            }
            if i > 0 {
                text.append("; ");
            } else {
                assert(text@ + entry_text(self.failures@[0]@) =~= entry_text(self.failures@[0]@));
            }
            text.append(self.failures[i].to_string().as_str());
            i += 1;
        }
        assert(self@.take(i as int) =~= self@);
        text
    }

    /// The failures as one `Api` error, which is how a submission reports
    /// them.
    pub fn into_post_error(self) -> (error: PostError)
        ensures
            error@ == (Failure { kind: ErrorKind::Api, detail: joined(self@) }),
    {
        PostError::Api(self.to_string())
    }
}

} // verus!
