//! The link gate: every request to open an external link is validated here,
//! and a request that repeats a recent one is suppressed.

use crate::text::{decimal, decimal_string, join2, join3, str_eq, trim, trimmed};
use vstd::prelude::*;

verus! {

/// Why a link was refused.
#[derive(Debug, PartialEq, Eq)]
pub enum RejectReason {
    /// Nothing is left of the input once surrounding white space is removed.
    Empty,
    /// The input is no absolute URL; the text says what the parser objected to.
    Unparsable(String),
    /// The URL's scheme, given here, is not one that may be opened.
    DisallowedScheme(String),
}

/// Mathematical form of a [`RejectReason`].
pub ghost enum RejectView {
    Empty,
    Unparsable(Seq<char>),
    DisallowedScheme(Seq<char>),
}

impl View for RejectReason {
    type V = RejectView;

    open spec fn view(&self) -> RejectView {
        match self {
            RejectReason::Empty => RejectView::Empty,
            RejectReason::Unparsable(detail) => RejectView::Unparsable(detail@),
            RejectReason::DisallowedScheme(scheme) => RejectView::DisallowedScheme(scheme@),
        }
    }
}

/// A link that passed validation.
#[derive(Debug, PartialEq, Eq)]
pub struct ParsedUrl {
    /// The link as given, without surrounding white space.
    pub url: String,
    /// Its scheme, in lower case and without the colon.
    pub scheme: String,
}

/// Mathematical form of a [`ParsedUrl`].
pub ghost struct ParsedUrlView {
    pub url: Seq<char>,
    pub scheme: Seq<char>,
}

impl View for ParsedUrl {
    type V = ParsedUrlView;

    open spec fn view(&self) -> ParsedUrlView {
        ParsedUrlView { url: self.url@, scheme: self.scheme@ }
    }
}

/// What `url::Url::parse` makes of `text`: `Ok` with the scheme of the URL
/// (as `Url::scheme` gives it) where the text is an absolute URL, `Err` with
/// the error's message where it is not.
pub uninterp spec fn url_parse(text: Seq<char>) -> Result<Seq<char>, Seq<char>>;

/// Calls `url::Url::parse`, then `Url::scheme` or the error's `to_string`.
/// Trusted: the result is what those calls return for `text`, which the
/// library names [`url_parse`].
#[verifier::external_body]
fn parse_scheme(text: &str) -> (r: Result<String, String>)
    ensures
        match r {
            Ok(scheme) => url_parse(text@) == Ok::<Seq<char>, Seq<char>>(scheme@),
            Err(detail) => url_parse(text@) == Err::<Seq<char>, Seq<char>>(detail@),
        },
{
    match url::Url::parse(text) {
        Ok(parsed) => Ok(parsed.scheme().to_string()),
        Err(error) => Err(error.to_string()),
    }
}

/// The schemes that may be handed to the operating system.
pub open spec fn allowed_scheme(scheme: Seq<char>) -> bool {
    scheme == "http"@ || scheme == "https"@ || scheme == "mailto"@ || scheme == "tel"@
}

/// Whether `scheme` is on the allow-list.
pub fn is_allowed_scheme(scheme: &str) -> (r: bool)
    ensures
        r == allowed_scheme(scheme@),
{
    str_eq(scheme, "http") || str_eq(scheme, "https") || str_eq(scheme, "mailto") || str_eq(
        scheme,
        "tel",
    )
}

/// Whether a link is accepted, whose text, not empty, was given to the
/// parser with the result `parsed`.
pub open spec fn ruling(text: Seq<char>, parsed: Result<Seq<char>, Seq<char>>) -> Result<
    ParsedUrlView,
    RejectView,
> {
    match parsed {
        Err(detail) => Err(RejectView::Unparsable(detail)),
        Ok(scheme) => if allowed_scheme(scheme) {
            Ok(ParsedUrlView { url: text, scheme })
        } else {
            Err(RejectView::DisallowedScheme(scheme))
        },
    }
}

/// Whether a link is accepted as it was typed or clicked.
pub open spec fn validation(url: Seq<char>) -> Result<ParsedUrlView, RejectView> {
    let text = trimmed(url);
    if text.len() == 0 {
        Err(RejectView::Empty)
    } else {
        ruling(text, url_parse(text))
    }
}

/// Whether `r` is the executable form of `v`.
pub open spec fn is_ruling(
    r: Result<ParsedUrl, RejectReason>,
    v: Result<ParsedUrlView, RejectView>,
) -> bool {
    match r {
        Ok(parsed) => v == Ok::<ParsedUrlView, RejectView>(parsed@),
        Err(reason) => v == Err::<ParsedUrlView, RejectView>(reason@),
    }
}

/// Accepts or rejects a link by what the parser said of it: an unparsable link and
/// one with a scheme off the allow-list are rejected, any other is accepted.
pub fn rule_on(text: &str, parsed: Result<String, String>) -> (r: Result<ParsedUrl, RejectReason>)
    ensures
        is_ruling(
            r,
            ruling(
                text@,
                match parsed {
                    Ok(scheme) => Ok(scheme@),
                    Err(detail) => Err(detail@),
                },
            ),
        ),
{
    match parsed {
        Err(detail) => Err(RejectReason::Unparsable(detail)),
        Ok(scheme) => {
            if is_allowed_scheme(scheme.as_str()) {
                Ok(ParsedUrl { url: text.to_owned(), scheme })
            } else {
                Err(RejectReason::DisallowedScheme(scheme))
            }
        },
    }
}

/// Validates a link: removes surrounding white space, rejects what is then
/// empty, what is no absolute URL, and any scheme but `http`, `https`,
/// `mailto` and `tel`.
pub fn validate(url: &str) -> (r: Result<ParsedUrl, RejectReason>)
    ensures
        is_ruling(r, validation(url@)),
{
    let text = trim(url);
    if text.is_empty() {
        return Err(RejectReason::Empty);
    }
    rule_on(text, parse_scheme(text))
}

/// Whether a link would be let through: the predicate of [`validate`], for
/// a caller that wants to know before it asks.
pub fn validate_url(url: String) -> (r: Result<bool, String>)
    ensures
        r == Ok::<bool, String>(validation(url@) is Ok),
{
    Ok(validate(url.as_str()).is_ok())
}

/// Milliseconds within which a repeated request for one link from one
/// window counts as the same click.
pub const DUPLICATE_THRESHOLD_MS: u64 = 500;

/// Milliseconds after which a recorded click is forgotten.
pub const CLEANUP_INTERVAL_MS: u64 = 60_000;

/// One click that led to a link being opened.
#[derive(Debug, PartialEq, Eq)]
pub struct LinkClickRecord {
    pub url: String,
    /// Milliseconds on the caller's monotonic clock.
    pub timestamp: u64,
    pub window_label: String,
}

/// Mathematical form of a [`LinkClickRecord`].
pub ghost struct ClickView {
    pub url: Seq<char>,
    pub timestamp: int,
    pub window_label: Seq<char>,
}

impl View for LinkClickRecord {
    type V = ClickView;

    open spec fn view(&self) -> ClickView {
        ClickView {
            url: self.url@,
            timestamp: self.timestamp as int,
            window_label: self.window_label@,
        }
    }
}

/// The records of `v` in their mathematical form.
pub open spec fn click_views(v: Seq<LinkClickRecord>) -> Seq<ClickView> {
    Seq::new(v.len(), |i: int| v[i]@)
}

/// Time elapsed at `now` since `then`; none if `then` is the later one.
pub open spec fn age(now: int, then: int) -> int {
    if now >= then {
        now - then
    } else {
        0
    }
}

/// The test that a record is younger than `interval` at `now`.
pub open spec fn younger_than(now: int, interval: int) -> spec_fn(ClickView) -> bool {
    |r: ClickView| age(now, r.timestamp) < interval
}

/// The records that survive pruning at `now`, in their order.
pub open spec fn retained(records: Seq<ClickView>, now: int, interval: int) -> Seq<ClickView> {
    records.filter(younger_than(now, interval))
}

/// Whether `r` records a click on `url` in the window `window_label`.
pub open spec fn same_click(r: ClickView, url: Seq<char>, window_label: Seq<char>) -> bool {
    r.url == url && r.window_label == window_label
}

/// Whether `records` holds a click on `url` in `window_label` that is
/// younger than `threshold` at `now`.
pub open spec fn has_recent(
    records: Seq<ClickView>,
    url: Seq<char>,
    window_label: Seq<char>,
    now: int,
    threshold: int,
) -> bool {
    exists|i: int|
        0 <= i < records.len() && same_click(#[trigger] records[i], url, window_label) && age(
            now,
            records[i].timestamp,
        ) < threshold
}

/// Whether any two records of one link from one window lie at least
/// `threshold` apart, the later one after the earlier.
pub open spec fn spaced(records: Seq<ClickView>, threshold: int) -> bool {
    forall|i: int, j: int|
        0 <= i < j < records.len() && same_click(
            #[trigger] records[i],
            (#[trigger] records[j]).url,
            records[j].window_label,
        ) ==> age(records[j].timestamp, records[i].timestamp) >= threshold
}

/// Executable `age`.
fn elapsed(now: u64, then: u64) -> (r: u64)
    ensures
        r == age(now as int, then as int),
{
    if now >= then {
        now - then
    } else {
        0
    }
}

/// A copy of `record`.
fn copy_record(record: &LinkClickRecord) -> (r: LinkClickRecord)
    ensures
        r@ == record@,
{
    LinkClickRecord {
        url: record.url.clone(),
        timestamp: record.timestamp,
        window_label: record.window_label.clone(),
    }
}

/// The records of `records` that are younger than `interval` at `now`.
fn pruned(records: &Vec<LinkClickRecord>, now: u64, interval: u64) -> (kept: Vec<LinkClickRecord>)
    ensures
        click_views(kept@) == retained(click_views(records@), now as int, interval as int),
{
    let ghost before = click_views(records@);
    let ghost keep = younger_than(now as int, interval as int);
    let mut kept: Vec<LinkClickRecord> = Vec::new();
    let n = records.len();
    let mut i: usize = 0;
    proof {
        reveal(Seq::filter);
        assert(before.take(0) == Seq::<ClickView>::empty());
    }
    while i < n
        invariant
            i <= n,
            n == records.len(),
            before == click_views(records@),
            keep == younger_than(now as int, interval as int),
            click_views(kept@) == before.take(i as int).filter(keep),
        decreases n - i,
    {
        let record = &records[i];
        proof {
            assert(before.take(i as int + 1) == before.take(i as int).push(before[i as int]));
            before.take(i as int).lemma_filter_push(before[i as int], keep);
        }
        if elapsed(now, record.timestamp) < interval {
            let copy = copy_record(record);
            let ghost earlier = kept@;
            kept.push(copy);
            assert(click_views(kept@) == click_views(earlier).push(copy@));
        }
        i = i + 1;
    }
    assert(before.take(n as int) == before);
    kept
}

/// Whether `records` holds a click on `url` in `window_label` that is
/// younger than `threshold` at `now`.
fn seen_recently(
    records: &Vec<LinkClickRecord>,
    url: &str,
    window_label: &str,
    now: u64,
    threshold: u64,
) -> (seen: bool)
    ensures
        seen == has_recent(
            click_views(records@),
            url@,
            window_label@,
            now as int,
            threshold as int,
        ),
{
    let ghost views = click_views(records@);
    let n = records.len();
    let mut i: usize = 0;
    while i < n
        invariant
            i <= n,
            n == records.len(),
            views == click_views(records@),
            forall|k: int|
                0 <= k < i ==> !(same_click(#[trigger] views[k], url@, window_label@) && age(
                    now as int,
                    views[k].timestamp,
                ) < threshold),
        decreases n - i,
    {
        let record = &records[i];
        assert(views[i as int] == record@);
        if str_eq(record.url.as_str(), url) && str_eq(record.window_label.as_str(), window_label)
            && elapsed(now, record.timestamp) < threshold {
            return true;
        }
        i = i + 1;
    }
    false
}

/// The recent clicks that opened a link, oldest first.
#[derive(Debug)]
pub struct LinkClickTracker {
    recent_clicks: Vec<LinkClickRecord>,
    cleanup_interval: u64,
    duplicate_threshold: u64,
}

impl View for LinkClickTracker {
    type V = Seq<ClickView>;

    closed spec fn view(&self) -> Seq<ClickView> {
        click_views(self.recent_clicks@)
    }
}

impl LinkClickTracker {
    /// Milliseconds after which a record is pruned.
    pub closed spec fn cleanup_interval(&self) -> int {
        self.cleanup_interval as int
    }

    /// Milliseconds within which a repeated click is a duplicate.
    pub closed spec fn duplicate_threshold(&self) -> int {
        self.duplicate_threshold as int
    }

    /// The invariant of a tracker: no link is on record twice for one window
    /// within the duplicate threshold.
    #[verifier::type_invariant]
    spec fn spaced_records(self) -> bool {
        spaced(click_views(self.recent_clicks@), self.duplicate_threshold as int)
    }

    /// A tracker without records, with the standard limits.
    pub fn new() -> (tracker: Self)
        ensures
            spaced(tracker@, tracker.duplicate_threshold()),
            tracker@ == Seq::<ClickView>::empty(),
            tracker.cleanup_interval() == CLEANUP_INTERVAL_MS,
            tracker.duplicate_threshold() == DUPLICATE_THRESHOLD_MS,
    {
        LinkClickTracker {
            recent_clicks: Vec::new(),
            cleanup_interval: CLEANUP_INTERVAL_MS,
            duplicate_threshold: DUPLICATE_THRESHOLD_MS,
        }
    }

    /// Number of records held.
    pub fn len(&self) -> (n: usize)
        ensures
            n == self@.len(),
    {
        self.recent_clicks.len()
    }

    /// A copy of the records, oldest first.
    pub fn records(&self) -> (records: Vec<LinkClickRecord>)
        ensures
            click_views(records@) == self@,
    {
        let n = self.recent_clicks.len();
        let mut records: Vec<LinkClickRecord> = Vec::new();
        let mut i: usize = 0;
        while i < n
            invariant
                i <= n,
                n == self.recent_clicks.len(),
                records.len() == i,
                forall|k: int| 0 <= k < i ==> (#[trigger] records[k])@ == self.recent_clicks[k]@,
            decreases n - i,
        {
            records.push(copy_record(&self.recent_clicks[i]));
            i = i + 1;
        }
        assert(click_views(records@) == self@);
        records
    }

    /// Forgets the records that are not younger than the cleanup interval.
    pub fn prune(&mut self, now: u64)
        ensures
            spaced(final(self)@, final(self).duplicate_threshold()),
            final(self).cleanup_interval() == old(self).cleanup_interval(),
            final(self).duplicate_threshold() == old(self).duplicate_threshold(),
            final(self)@ == retained(old(self)@, now as int, old(self).cleanup_interval()),
    {
        let kept = pruned(&self.recent_clicks, now, self.cleanup_interval);
        proof {
            use_type_invariant(&*self);
            lemma_retained_spaced(
                self@,
                now as int,
                self.cleanup_interval as int,
                self.duplicate_threshold as int,
            );
        }
        self.recent_clicks = kept;
    }

    /// Prunes, then tells whether the click repeats a recent one; a click
    /// that does not is put on record.
    pub fn is_duplicate(&mut self, url: &str, window_label: &str, now: u64) -> (dup: bool)
        ensures
            spaced(final(self)@, final(self).duplicate_threshold()),
            final(self).cleanup_interval() == old(self).cleanup_interval(),
            final(self).duplicate_threshold() == old(self).duplicate_threshold(),
            dup == has_recent(
                retained(old(self)@, now as int, old(self).cleanup_interval()),
                url@,
                window_label@,
                now as int,
                old(self).duplicate_threshold(),
            ),
            final(self)@ == if dup {
                retained(old(self)@, now as int, old(self).cleanup_interval())
            } else {
                retained(old(self)@, now as int, old(self).cleanup_interval()).push(
                    ClickView { url: url@, timestamp: now as int, window_label: window_label@ },
                )
            },
    {
        let mut clicks = pruned(&self.recent_clicks, now, self.cleanup_interval);
        proof {
            use_type_invariant(&*self);
            lemma_retained_spaced(
                self@,
                now as int,
                self.cleanup_interval as int,
                self.duplicate_threshold as int,
            );
        }
        let dup = seen_recently(&clicks, url, window_label, now, self.duplicate_threshold);
        if !dup {
            let ghost kept = clicks@;
            let record = LinkClickRecord {
                url: url.to_owned(),
                timestamp: now,
                window_label: window_label.to_owned(),
            };
            clicks.push(record);
            proof {
                assert(click_views(kept.push(record)) == click_views(kept).push(record@));
                lemma_push_spaced(click_views(kept), record@, self.duplicate_threshold as int);
            }
        }
        self.recent_clicks = clicks;
        dup
    }

    /// Forgets every record and tells how many there were.
    pub fn clear(&mut self) -> (count: usize)
        ensures
            spaced(final(self)@, final(self).duplicate_threshold()),
            final(self).cleanup_interval() == old(self).cleanup_interval(),
            final(self).duplicate_threshold() == old(self).duplicate_threshold(),
            final(self)@ == Seq::<ClickView>::empty(),
            count == old(self)@.len(),
    {
        let count = self.recent_clicks.len();
        self.recent_clicks = Vec::new();
        count
    }
}

/// A click that repeats none of the recent ones may join the records.
pub proof fn lemma_push_spaced(records: Seq<ClickView>, click: ClickView, threshold: int)
    requires
        spaced(records, threshold),
        !has_recent(records, click.url, click.window_label, click.timestamp, threshold),
    ensures
        spaced(records.push(click), threshold),
{
    let all = records.push(click);
    assert forall|i: int, j: int|
        0 <= i < j < all.len() && same_click(
            #[trigger] all[i],
            (#[trigger] all[j]).url,
            all[j].window_label,
        ) implies age(all[j].timestamp, all[i].timestamp) >= threshold by {
        if j == records.len() {
            assert(records[i] == all[i]);
        } else {
            assert(records[i] == all[i] && records[j] == all[j]);
        }
    }
}

/// Pruning keeps records apart that were apart.
pub proof fn lemma_retained_spaced(records: Seq<ClickView>, now: int, interval: int, threshold: int)
    requires
        spaced(records, threshold),
    ensures
        spaced(retained(records, now, interval), threshold),
    decreases records.len(),
{
    reveal(Seq::filter);
    let keep = younger_than(now, interval);
    if records.len() > 0 {
        let front = records.drop_last();
        lemma_retained_spaced(front, now, interval, threshold);
        let kept = front.filter(keep);
        if keep(records.last()) {
            let all = kept.push(records.last());
            assert forall|i: int, j: int|
                0 <= i < j < all.len() && same_click(
                    #[trigger] all[i],
                    (#[trigger] all[j]).url,
                    all[j].window_label,
                ) implies age(all[j].timestamp, all[i].timestamp) >= threshold by {
                if j == kept.len() {
                    front.lemma_filter_contains_rev(keep, kept[i]);
                    let k = choose|k: int| 0 <= k < front.len() && front[k] == kept[i];
                    assert(records[k] == kept[i]);
                    assert(records[records.len() - 1] == all[j]);
                }
            }
        }
    }
}

/// The decision on a request to open a link, before anything is opened.
#[derive(Debug, PartialEq, Eq)]
pub enum GateDecision {
    /// The link failed validation; nothing is to be opened.
    Rejected(RejectReason),
    /// The request repeats a recent one; nothing is to be opened.
    Suppressed,
    /// The link is to be handed to the operating system.
    Open(ParsedUrl),
}

/// Mathematical form of a [`GateDecision`].
pub ghost enum GateDecisionView {
    Rejected(RejectView),
    Suppressed,
    Open(ParsedUrlView),
}

impl View for GateDecision {
    type V = GateDecisionView;

    open spec fn view(&self) -> GateDecisionView {
        match self {
            GateDecision::Rejected(reason) => GateDecisionView::Rejected(reason@),
            GateDecision::Suppressed => GateDecisionView::Suppressed,
            GateDecision::Open(link) => GateDecisionView::Open(link@),
        }
    }
}

/// How a request to open a link ended.
#[derive(Debug, PartialEq, Eq)]
pub enum Outcome {
    Rejected(RejectReason),
    Suppressed,
    Opened,
    /// The operating system could not open the link; its message.
    OpenFailed(String),
}

/// Mathematical form of an [`Outcome`].
pub ghost enum OutcomeView {
    Rejected(RejectView),
    Suppressed,
    Opened,
    OpenFailed(Seq<char>),
}

impl View for Outcome {
    type V = OutcomeView;

    open spec fn view(&self) -> OutcomeView {
        match self {
            Outcome::Rejected(reason) => OutcomeView::Rejected(reason@),
            Outcome::Suppressed => OutcomeView::Suppressed,
            Outcome::Opened => OutcomeView::Opened,
            Outcome::OpenFailed(error) => OutcomeView::OpenFailed(error@),
        }
    }
}

/// The decision on a request made at `now`, given the records before it.
pub open spec fn gate_decision(
    records: Seq<ClickView>,
    url: Seq<char>,
    origin: Seq<char>,
    now: int,
    interval: int,
    threshold: int,
) -> GateDecisionView {
    match validation(url) {
        Err(reason) => GateDecisionView::Rejected(reason),
        Ok(link) => if has_recent(retained(records, now, interval), link.url, origin, now, threshold) {
            GateDecisionView::Suppressed
        } else {
            GateDecisionView::Open(link)
        },
    }
}

/// The records after a request made at `now`, given the records before it:
/// untouched by a rejected request, pruned by any other, and longer by the
/// new click where the link is to be opened.
pub open spec fn gate_records(
    records: Seq<ClickView>,
    url: Seq<char>,
    origin: Seq<char>,
    now: int,
    interval: int,
    threshold: int,
) -> Seq<ClickView> {
    match gate_decision(records, url, origin, now, interval, threshold) {
        GateDecisionView::Rejected(_) => records,
        GateDecisionView::Suppressed => retained(records, now, interval),
        GateDecisionView::Open(link) => retained(records, now, interval).push(
            ClickView { url: link.url, timestamp: now, window_label: origin },
        ),
    }
}

/// The outcome of a request: that of the decision where nothing was to be
/// opened, else what the operating system reported.
pub open spec fn outcome_of(
    decision: GateDecisionView,
    opener: Result<(), Seq<char>>,
) -> OutcomeView {
    match decision {
        GateDecisionView::Rejected(reason) => OutcomeView::Rejected(reason),
        GateDecisionView::Suppressed => OutcomeView::Suppressed,
        GateDecisionView::Open(_) => match opener {
            Ok(_) => OutcomeView::Opened,
            Err(error) => OutcomeView::OpenFailed(error),
        },
    }
}

impl LinkClickTracker {
    /// The guarded path up to the point where the link is opened: validates
    /// the link, prunes the records, and suppresses a request that repeats a
    /// recent one from the same window. A request that passes is put on
    /// record with the time `now`.
    pub fn request_open(&mut self, url: &str, origin_window_label: &str, now: u64) -> (decision:
        GateDecision)
        ensures
            spaced(final(self)@, final(self).duplicate_threshold()),
            final(self).cleanup_interval() == old(self).cleanup_interval(),
            final(self).duplicate_threshold() == old(self).duplicate_threshold(),
            decision@ == gate_decision(
                old(self)@,
                url@,
                origin_window_label@,
                now as int,
                old(self).cleanup_interval(),
                old(self).duplicate_threshold(),
            ),
            final(self)@ == gate_records(
                old(self)@,
                url@,
                origin_window_label@,
                now as int,
                old(self).cleanup_interval(),
                old(self).duplicate_threshold(),
            ),
    {
        proof {
            use_type_invariant(&*self);
        }
        match validate(url) {
            Err(reason) => GateDecision::Rejected(reason),
            Ok(link) => {
                if self.is_duplicate(link.url.as_str(), origin_window_label, now) {
                    GateDecision::Suppressed
                } else {
                    GateDecision::Open(link)
                }
            },
        }
    }
}

impl GateDecision {
    /// The outcome of the request. `opener` is what the operating system
    /// reported of the link that was to be opened; where none was, it is not
    /// read.
    pub fn outcome(self, opener: Result<(), String>) -> (outcome: Outcome)
        ensures
            outcome@ == outcome_of(
                self@,
                match opener {
                    Ok(_) => Ok(()),
                    Err(error) => Err(error@),
                },
            ),
    {
        match self {
            GateDecision::Rejected(reason) => Outcome::Rejected(reason),
            GateDecision::Suppressed => Outcome::Suppressed,
            GateDecision::Open(_) => match opener {
                Ok(_) => Outcome::Opened,
                Err(error) => Outcome::OpenFailed(error),
            },
        }
    }
}

/// The reply of the `open_link` command where it did not fail.
#[derive(Debug, PartialEq, Eq)]
pub struct CommandResponse {
    pub success: bool,
    pub message: String,
    pub url: Option<String>,
}

/// Mathematical form of a [`CommandResponse`].
pub ghost struct CommandResponseView {
    pub success: bool,
    pub message: Seq<char>,
    pub url: Option<Seq<char>>,
}

impl View for CommandResponse {
    type V = CommandResponseView;

    open spec fn view(&self) -> CommandResponseView {
        CommandResponseView {
            success: self.success,
            message: self.message@,
            url: match self.url {
                Some(url) => Some(url@),
                None => None,
            },
        }
    }
}

/// The message that tells a caller why a link was refused.
pub open spec fn reject_message(reason: RejectView) -> Seq<char> {
    match reason {
        RejectView::Empty => "URL cannot be empty"@,
        RejectView::Unparsable(detail) => "Invalid URL format: "@ + detail,
        RejectView::DisallowedScheme(scheme) => "URL scheme '"@ + scheme + "' is not allowed"@,
    }
}

impl RejectReason {
    /// The message that tells a caller why the link was refused.
    pub fn message(&self) -> (text: String)
        ensures
            text@ == reject_message(self@),
    {
        match self {
            RejectReason::Empty => "URL cannot be empty".to_owned(),
            RejectReason::Unparsable(detail) => join2("Invalid URL format: ", detail.as_str()),
            RejectReason::DisallowedScheme(scheme) => join3(
                "URL scheme '",
                scheme.as_str(),
                "' is not allowed",
            ),
        }
    }
}

/// The command's reply to a request for `url` (white space removed) that
/// ended in `outcome`: an error message for a rejected link and for one the
/// operating system could not open, a response that names the link for the
/// others.
pub open spec fn reply_of(outcome: OutcomeView, url: Seq<char>) -> Result<
    CommandResponseView,
    Seq<char>,
> {
    match outcome {
        OutcomeView::Rejected(reason) => Err(reject_message(reason)),
        OutcomeView::Suppressed => Ok(
            CommandResponseView {
                success: false,
                message: "Duplicate link click prevented"@,
                url: Some(url),
            },
        ),
        OutcomeView::Opened => Ok(
            CommandResponseView {
                success: true,
                message: "Link opened successfully"@,
                url: Some(url),
            },
        ),
        OutcomeView::OpenFailed(error) => Err("Failed to open link: "@ + error),
    }
}

/// Whether `r` is the executable form of `v`.
pub open spec fn is_reply(
    r: Result<CommandResponse, String>,
    v: Result<CommandResponseView, Seq<char>>,
) -> bool {
    match r {
        Ok(response) => v == Ok::<CommandResponseView, Seq<char>>(response@),
        Err(message) => v == Err::<CommandResponseView, Seq<char>>(message@),
    }
}

/// The reply of the `open_link` command to a request for `url` that ended
/// in `outcome`.
pub fn reply(outcome: &Outcome, url: &str) -> (r: Result<CommandResponse, String>)
    ensures
        is_reply(r, reply_of(outcome@, trimmed(url@))),
{
    match outcome {
        Outcome::Rejected(reason) => Err(reason.message()),
        Outcome::Suppressed => Ok(
            CommandResponse {
                success: false,
                message: "Duplicate link click prevented".to_owned(),
                url: Some(trim(url).to_owned()),
            },
        ),
        Outcome::Opened => Ok(
            CommandResponse {
                success: true,
                message: "Link opened successfully".to_owned(),
                url: Some(trim(url).to_owned()),
            },
        ),
        Outcome::OpenFailed(error) => Err(join2("Failed to open link: ", error.as_str())),
    }
}

/// What the `open_link` command does next.
#[derive(Debug, PartialEq, Eq)]
pub enum OpenLink {
    /// The command is over, with this reply.
    Done(Result<CommandResponse, String>),
    /// The link is to be opened, and the command ends with the reply that
    /// [`link_launched`] gives for the result.
    Launch(ParsedUrl),
}

/// The `open_link` command up to the point where the link is opened: the
/// request, made from the window `window_label` at the time `now`, is
/// validated and held against the records of `tracker`. A rejected and a
/// suppressed request end the command.
pub fn open_link(window_label: &str, tracker: &mut LinkClickTracker, url: &str, now: u64) -> (step:
    OpenLink)
    ensures
        spaced(final(tracker)@, final(tracker).duplicate_threshold()),
        final(tracker).cleanup_interval() == old(tracker).cleanup_interval(),
        final(tracker).duplicate_threshold() == old(tracker).duplicate_threshold(),
        final(tracker)@ == gate_records(
            old(tracker)@,
            url@,
            window_label@,
            now as int,
            old(tracker).cleanup_interval(),
            old(tracker).duplicate_threshold(),
        ),
        match gate_decision(
            old(tracker)@,
            url@,
            window_label@,
            now as int,
            old(tracker).cleanup_interval(),
            old(tracker).duplicate_threshold(),
        ) {
            GateDecisionView::Open(link) => step matches OpenLink::Launch(l) && l@ == link,
            settled => step matches OpenLink::Done(r) && is_reply(
                r,
                reply_of(outcome_of(settled, Ok(())), trimmed(url@)),
            ),
        },
{
    match tracker.request_open(url, window_label, now) {
        GateDecision::Open(link) => OpenLink::Launch(link),
        settled => {
            let outcome = settled.outcome(Ok(()));
            OpenLink::Done(reply(&outcome, url))
        },
    }
}

/// The reply of the `open_link` command once the operating system has
/// reported on the link that [`open_link`] asked to launch.
pub fn link_launched(link: &ParsedUrl, opener: Result<(), String>) -> (r: Result<
    CommandResponse,
    String,
>)
    ensures
        is_reply(
            r,
            reply_of(
                match opener {
                    Ok(_) => OutcomeView::Opened,
                    Err(error) => OutcomeView::OpenFailed(error@),
                },
                link.url@,
            ),
        ),
{
    match opener {
        Ok(_) => Ok(
            CommandResponse {
                success: true,
                message: "Link opened successfully".to_owned(),
                url: Some(link.url.clone()),
            },
        ),
        Err(error) => Err(join2("Failed to open link: ", error.as_str())),
    }
}

/// How often one link was opened within the cleanup interval.
#[derive(Debug, PartialEq, Eq)]
pub struct LinkStat {
    pub url: String,
    pub count: usize,
}

/// Number of the records of `url` that are younger than `interval` at `now`.
pub open spec fn live_count(records: Seq<ClickView>, url: Seq<char>, now: int, interval: int) -> nat
    decreases records.len(),
{
    if records.len() == 0 {
        0
    } else {
        live_count(records.drop_last(), url, now, interval) + if records.last().url == url && age(
            now,
            records.last().timestamp,
        ) < interval {
            1nat
        } else {
            0nat
        }
    }
}

/// Whether `stats` counts the live records of `records` by link: no link
/// twice, each with its number of live records, and none left out.
pub open spec fn is_stats_of(
    stats: Seq<LinkStat>,
    records: Seq<ClickView>,
    now: int,
    interval: int,
) -> bool {
    &&& forall|i: int, j: int|
        0 <= i < j < stats.len() ==> (#[trigger] stats[i]).url@ != (#[trigger] stats[j]).url@
    &&& forall|i: int|
        0 <= i < stats.len() ==> (#[trigger] stats[i]).count > 0 && stats[i].count == live_count(
            records,
            stats[i].url@,
            now,
            interval,
        )
    &&& forall|url: Seq<char>| #[trigger]
        live_count(records, url, now, interval) > 0 ==> exists|i: int|
            0 <= i < stats.len() && (#[trigger] stats[i]).url@ == url
}

proof fn lemma_live_count_bound(records: Seq<ClickView>, url: Seq<char>, now: int, interval: int)
    ensures
        live_count(records, url, now, interval) <= records.len(),
    decreases records.len(),
{
    if records.len() > 0 {
        lemma_live_count_bound(records.drop_last(), url, now, interval);
    }
}

/// Position of `url` in `stats`, if it is there.
fn find_stat(stats: &Vec<LinkStat>, url: &str) -> (found: Option<usize>)
    ensures
        match found {
            Some(i) => i < stats.len() && stats[i as int].url@ == url@,
            None => forall|i: int| 0 <= i < stats.len() ==> (#[trigger] stats[i]).url@ != url@,
        },
{
    let n = stats.len();
    let mut i: usize = 0;
    while i < n
        invariant
            i <= n,
            n == stats.len(),
            forall|k: int| 0 <= k < i ==> (#[trigger] stats[k]).url@ != url@,
        decreases n - i,
    {
        if str_eq(stats[i].url.as_str(), url) {
            return Some(i);
        }
        i = i + 1;
    }
    None
}

impl LinkClickTracker {
    /// Counts, link by link, the records younger than the cleanup interval
    /// at `now`. Nothing is pruned.
    pub fn stats(&self, now: u64) -> (stats: Vec<LinkStat>)
        ensures
            is_stats_of(stats@, self@, now as int, self.cleanup_interval()),
    {
        let ghost records = self@;
        let ghost interval = self.cleanup_interval as int;
        let mut stats: Vec<LinkStat> = Vec::new();
        let n = self.recent_clicks.len();
        let mut k: usize = 0;
        assert(records.take(0) == Seq::<ClickView>::empty());
        while k < n
            invariant
                k <= n,
                n == self.recent_clicks.len(),
                records == click_views(self.recent_clicks@),
                interval == self.cleanup_interval as int,
                is_stats_of(stats@, records.take(k as int), now as int, interval),
            decreases n - k,
        {
            let record = &self.recent_clicks[k];
            let ghost seen = records.take(k as int);
            let ghost next = records.take(k as int + 1);
            let ghost before = stats@;
            proof {
                assert(next.drop_last() == seen);
                assert(next.last() == record@);
            }
            if elapsed(now, record.timestamp) < self.cleanup_interval {
                match find_stat(&stats, record.url.as_str()) {
                    Some(i) => {
                        proof {
                            lemma_live_count_bound(seen, record.url@, now as int, interval);
                        }
                        let entry = LinkStat {
                            url: stats[i].url.clone(),
                            count: stats[i].count + 1,
                        };
                        stats.set(i, entry);
                        assert forall|url: Seq<char>| #[trigger]
                            live_count(next, url, now as int, interval) > 0 implies exists|j: int|
                            0 <= j < stats.len() && (#[trigger] stats[j]).url@ == url by {
                            if url == record.url@ {
                                assert(stats[i as int].url@ == url);
                            } else {
                                assert(live_count(seen, url, now as int, interval) > 0);
                                let j = choose|j: int|
                                    0 <= j < before.len() && (#[trigger] before[j]).url@ == url;
                                assert(stats[j].url@ == url);
                            }
                        }
                    },
                    None => {
                        assert(live_count(seen, record.url@, now as int, interval) == 0);
                        stats.push(LinkStat { url: record.url.clone(), count: 1 });
                        assert forall|url: Seq<char>| #[trigger]
                            live_count(next, url, now as int, interval) > 0 implies exists|j: int|
                            0 <= j < stats.len() && (#[trigger] stats[j]).url@ == url by {
                            if url == record.url@ {
                                assert(stats[before.len() as int].url@ == url);
                            } else {
                                assert(live_count(seen, url, now as int, interval) > 0);
                                let j = choose|j: int|
                                    0 <= j < before.len() && (#[trigger] before[j]).url@ == url;
                                assert(stats[j].url@ == url);
                            }
                        }
                    },
                }
            } else {
                assert forall|url: Seq<char>| #[trigger]
                    live_count(next, url, now as int, interval) > 0 implies exists|j: int|
                    0 <= j < stats.len() && (#[trigger] stats[j]).url@ == url by {
                    assert(live_count(seen, url, now as int, interval) > 0);
                }
            }
            k = k + 1;
        }
        assert(records.take(n as int) == records);
        stats
    }
}

/// Counts of the links opened within the cleanup interval, for debugging.
pub fn get_link_stats(tracker: &LinkClickTracker, now: u64) -> (r: Result<Vec<LinkStat>, String>)
    ensures
        r matches Ok(stats) && is_stats_of(
            stats@,
            tracker@,
            now as int,
            tracker.cleanup_interval(),
        ),
{
    Ok(tracker.stats(now))
}

/// Forgets all recorded clicks and says how many there were.
pub fn clear_link_history(tracker: &mut LinkClickTracker) -> (r: Result<String, String>)
    ensures
        spaced(final(tracker)@, final(tracker).duplicate_threshold()),
        final(tracker).cleanup_interval() == old(tracker).cleanup_interval(),
        final(tracker).duplicate_threshold() == old(tracker).duplicate_threshold(),
        final(tracker)@ == Seq::<ClickView>::empty(),
        r matches Ok(message) && message@ == "Cleared "@ + decimal(old(tracker)@.len())
            + " link click records"@,
{
    let count = tracker.clear();
    let number = decimal_string(count);
    Ok(join3("Cleared ", number.as_str(), " link click records"))
}

/// The tracker that the application starts with.
pub fn init_link_tracker() -> (tracker: LinkClickTracker)
    ensures
        spaced(tracker@, tracker.duplicate_threshold()),
        tracker@ == Seq::<ClickView>::empty(),
        tracker.cleanup_interval() == CLEANUP_INTERVAL_MS,
        tracker.duplicate_threshold() == DUPLICATE_THRESHOLD_MS,
{
    LinkClickTracker::new()
}

/// Pruning keeps the records that are younger than the interval and no
/// others: a record that is not younger is in no later scan, whatever link
/// it names.
pub proof fn law_pruned_records(records: Seq<ClickView>, now: int, interval: int, r: ClickView)
    ensures
        retained(records, now, interval).contains(r) <==> records.contains(r) && age(
            now,
            r.timestamp,
        ) < interval,
{
    let keep = younger_than(now, interval);
    let kept = retained(records, now, interval);
    if kept.contains(r) {
        let i = choose|i: int| 0 <= i < kept.len() && kept[i] == r;
        records.lemma_filter_pred(keep, i);
        records.lemma_filter_contains_rev(keep, r);
    }
    if records.contains(r) && keep(r) {
        let i = choose|i: int| 0 <= i < records.len() && records[i] == r;
        records.lemma_filter_contains(keep, i);
    }
}

/// Whatever is requested, the records stay such that no link is on record
/// twice for one window within the duplicate threshold.
pub proof fn law_records_stay_spaced(
    records: Seq<ClickView>,
    url: Seq<char>,
    origin: Seq<char>,
    now: int,
    interval: int,
    threshold: int,
)
    requires
        spaced(records, threshold),
    ensures
        spaced(gate_records(records, url, origin, now, interval, threshold), threshold),
{
    lemma_retained_spaced(records, now, interval, threshold);
    if let GateDecisionView::Open(link) = gate_decision(
        records,
        url,
        origin,
        now,
        interval,
        threshold,
    ) {
        lemma_push_spaced(
            retained(records, now, interval),
            ClickView { url: link.url, timestamp: now, window_label: origin },
            threshold,
        );
    }
}

/// A request that repeats one that was let through, from the same window
/// and before the duplicate threshold has passed, is suppressed.
pub proof fn law_repeat_suppressed(
    records: Seq<ClickView>,
    url: Seq<char>,
    origin: Seq<char>,
    first: int,
    second: int,
    interval: int,
    threshold: int,
)
    requires
        threshold <= interval,
        age(second, first) < threshold,
        gate_decision(records, url, origin, first, interval, threshold) is Open,
    ensures
        gate_decision(
            gate_records(records, url, origin, first, interval, threshold),
            url,
            origin,
            second,
            interval,
            threshold,
        ) is Suppressed,
{
    let link = validation(url)->Ok_0;
    let click = ClickView { url: link.url, timestamp: first, window_label: origin };
    let after = gate_records(records, url, origin, first, interval, threshold);
    assert(after.last() == click);
    assert(after.contains(click));
    law_pruned_records(after, second, interval, click);
    let scanned = retained(after, second, interval);
    let i = choose|i: int| 0 <= i < scanned.len() && scanned[i] == click;
    assert(same_click(scanned[i], link.url, origin));
}

/// A request that repeats one that was let through, once the duplicate
/// threshold has passed, is let through as well.
pub proof fn law_late_repeat_opened(
    records: Seq<ClickView>,
    url: Seq<char>,
    origin: Seq<char>,
    first: int,
    second: int,
    interval: int,
    threshold: int,
)
    requires
        second - first >= threshold,
        gate_decision(records, url, origin, first, interval, threshold) is Open,
    ensures
        gate_decision(
            gate_records(records, url, origin, first, interval, threshold),
            url,
            origin,
            second,
            interval,
            threshold,
        ) is Open,
{
    let link = validation(url)->Ok_0;
    let click = ClickView { url: link.url, timestamp: first, window_label: origin };
    let kept = retained(records, first, interval);
    let after = gate_records(records, url, origin, first, interval, threshold);
    let scanned = retained(after, second, interval);
    assert forall|i: int| 0 <= i < scanned.len() && same_click(
        #[trigger] scanned[i],
        link.url,
        origin,
    ) implies age(second, scanned[i].timestamp) >= threshold by {
        let r = scanned[i];
        law_pruned_records(after, second, interval, r);
        let k = choose|k: int| 0 <= k < after.len() && after[k] == r;
        if k < kept.len() {
            assert(kept[k] == r);
        }
    }
}

} // verus!
