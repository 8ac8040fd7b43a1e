//! Liveness probing of stored links and the decisions of a purge run.
use vstd::prelude::*;

use crate::text::{char_vec, has_prefix, starts_with_chars};
use crate::uri::{parse_uri, redirect_target, resolve_redirect, uri_parse, uri_text, UriParts};
use vstd::utf8::encode_utf8;

verus! {

/// Why a link could not be classified, or a store operation failed.
#[derive(Debug, PartialEq, Eq)]
pub enum PurgeError {
    /// Listing the stored links failed.
    Database,
    /// Deleting the link with this id failed.
    DatabaseDelete(i32),
    /// The HEAD request could not be made or timed out.
    LinkCheck,
    /// A link or a redirect target is not a URI.
    InvalidUri,
    /// A relative redirect does not combine with the current URI.
    InvalidUriParts,
    /// More redirects than `MAX_REDIRECTS` in one attempt.
    TooManyRedirects,
    /// Every attempt ended on this status: status, link, record id.
    UnexpectedStatusCode(u16, String, i32),
    /// The starting id does not fit the store's id type.
    InvalidStartIdValue,
}

/// The verdict of one probe.
#[derive(Debug, PartialEq, Eq)]
pub enum ProbeOutcome {
    Live,
    Dead,
    Indeterminate(PurgeError),
}

/// What came back from one HEAD request.
#[derive(Debug)]
pub enum ProbeEvent {
    /// A response: its status and its `Location` header, if any.
    Response { status: u16, location: Option<Vec<u8>> },
    /// No response: the transfer failed or timed out.
    TransportFailure,
}

/// Attempts per probe, retries included.
pub const MAX_ATTEMPTS: u32 = 5;

/// Redirects followed within one attempt.
pub const MAX_REDIRECTS: u32 = 10;

/// The state of a probe, as contracts speak of it.
pub struct ProbeView {
    pub url: String,
    pub record_id: i32,
    pub origin: (Option<Seq<char>>, Option<Seq<char>>, Option<Seq<char>>),
    pub current: (Option<Seq<char>>, Option<Seq<char>>, Option<Seq<char>>),
    pub attempt: nat,
    pub hops: nat,
}

/// A probe starts its first attempt at the link itself.
pub open spec fn fresh_probe(
    url: String,
    record_id: i32,
    origin: (Option<Seq<char>>, Option<Seq<char>>, Option<Seq<char>>),
) -> ProbeView {
    ProbeView { url, record_id, origin, current: origin, attempt: 1, hops: 0 }
}

/// An attempt failed: start the next one from the link itself, or give up
/// with `err` after the last.
pub open spec fn failed_attempt(s: ProbeView, err: PurgeError) -> (ProbeView, Option<ProbeOutcome>) {
    if s.attempt < MAX_ATTEMPTS {
        (ProbeView { attempt: s.attempt + 1, hops: 0, current: s.origin, ..s }, None)
    } else {
        (s, Some(ProbeOutcome::Indeterminate(err)))
    }
}

/// A status on which an attempt fails: not a redirect, not 404, not a
/// success.
pub open spec fn is_failure_status(status: u16) -> bool {
    !(300 <= status < 400) && status != 404 && !(200 <= status < 300)
}

/// What one HEAD response does to a probe: the next state, and the verdict
/// where there is one (`None`: request the current URI).
pub open spec fn probe_step(s: ProbeView, ev: ProbeEvent) -> (ProbeView, Option<ProbeOutcome>) {
    match ev {
        ProbeEvent::TransportFailure => failed_attempt(s, PurgeError::LinkCheck),
        ProbeEvent::Response { status, location } => {
            if 300 <= status < 400 && location is Some {
                match uri_parse(location->Some_0@) {
                    None => (s, Some(ProbeOutcome::Indeterminate(PurgeError::InvalidUri))),
                    Some(l) => match redirect_target(s.current, l) {
                        None => (s, Some(ProbeOutcome::Indeterminate(PurgeError::InvalidUriParts))),
                        Some(next) => if s.hops + 1 > MAX_REDIRECTS {
                            (s, Some(ProbeOutcome::Indeterminate(PurgeError::TooManyRedirects)))
                        } else {
                            (ProbeView { current: next, hops: s.hops + 1, ..s }, None)
                        },
                    },
                }
            } else if status == 404 {
                (s, Some(ProbeOutcome::Dead))
            } else if 200 <= status < 300 {
                (s, Some(ProbeOutcome::Live))
            } else {
                failed_attempt(
                    s,
                    PurgeError::UnexpectedStatusCode(status, s.url, s.record_id),
                )
            }
        },
    }
}

/// One liveness check of a stored link: HEAD requests that follow redirects
/// by hand, with a bounded number of hops and of attempts. The caller sends
/// a HEAD request to `request_uri` and hands what came back to `on_event`,
/// until `on_event` gives a verdict.
pub struct LinkProbe {
    url: String,
    record_id: i32,
    origin: UriParts,
    current: UriParts,
    attempt: u32,
    hops: u32,
}

impl View for LinkProbe {
    type V = ProbeView;

    closed spec fn view(&self) -> ProbeView {
        ProbeView {
            url: self.url,
            record_id: self.record_id,
            origin: self.origin@,
            current: self.current@,
            attempt: self.attempt as nat,
            hops: self.hops as nat,
        }
    }
}

impl LinkProbe {
    pub closed spec fn wf(&self) -> bool {
        1 <= self.attempt <= MAX_ATTEMPTS && self.hops <= MAX_REDIRECTS
    }

    /// Starts a probe of `url`, the link of record `record_id`; `InvalidUri`
    /// where the link is not a URI.
    pub fn start(url: &str, record_id: i32) -> (r: Result<LinkProbe, PurgeError>)
        ensures
            match r {
                Ok(p) => {
                    &&& p.wf()
                    &&& uri_parse(encode_utf8(url@)) is Some
                    &&& p@ == fresh_probe(p@.url, record_id, uri_parse(encode_utf8(url@))->Some_0)
                    &&& p@.url@ == url@
                },
                Err(e) => e == PurgeError::InvalidUri && uri_parse(encode_utf8(url@)) is None,
            },
    {
        match parse_uri(url.as_bytes()) {
            Some(origin) => {
                let current = origin.copy();
                Ok(LinkProbe { url: url.to_owned(), record_id, origin, current, attempt: 1, hops: 0 })
            },
            None => Err(PurgeError::InvalidUri),
        }
    }

    /// The URI that the next HEAD request goes to.
    pub fn request_uri(&self) -> (r: String)
        ensures
            r@ == uri_text(self@.current),
    {
        self.current.to_text()
    }

    /// The attempts started so far.
    pub fn attempts(&self) -> (r: u32)
        ensures
            r == self@.attempt,
    {
        self.attempt
    }

    /// The redirects followed in the current attempt.
    pub fn hops(&self) -> (r: u32)
        ensures
            r == self@.hops,
    {
        self.hops
    }

    fn fail_attempt(&mut self, err: PurgeError) -> (r: Option<ProbeOutcome>)
        requires
            old(self).wf(),
        ensures
            final(self).wf(),
            (final(self)@, r) == failed_attempt(old(self)@, err),
    {
        if self.attempt < MAX_ATTEMPTS {
            self.attempt = self.attempt + 1;
            self.hops = 0;
            self.current = self.origin.copy();
            None
        } else {
            Some(ProbeOutcome::Indeterminate(err))
        }
    }

    /// Takes in the outcome of the last HEAD request: follows a redirect,
    /// starts the next attempt, or gives the verdict.
    pub fn on_event(&mut self, ev: ProbeEvent) -> (r: Option<ProbeOutcome>)
        requires
            old(self).wf(),
        ensures
            final(self).wf(),
            (final(self)@, r) == probe_step(old(self)@, ev),
    {
        match ev {
            ProbeEvent::TransportFailure => self.fail_attempt(PurgeError::LinkCheck),
            ProbeEvent::Response { status, location } => {
                if 300 <= status && status < 400 && location.is_some() {
                    let loc = location.unwrap();
                    let parsed = match parse_uri(loc.as_slice()) {
                        Some(l) => l,
                        None => {
                            return Some(ProbeOutcome::Indeterminate(PurgeError::InvalidUri));
                        },
                    };
                    let next = match resolve_redirect(&self.current, parsed) {
                        Some(n) => n,
                        None => {
                            return Some(ProbeOutcome::Indeterminate(PurgeError::InvalidUriParts));
                        },
                    };
                    if self.hops >= MAX_REDIRECTS {
                        return Some(ProbeOutcome::Indeterminate(PurgeError::TooManyRedirects));
                    }
                    self.hops = self.hops + 1;
                    self.current = next;
                    None
                } else if status == 404 {
                    Some(ProbeOutcome::Dead)
                } else if 200 <= status && status < 300 {
                    Some(ProbeOutcome::Live)
                } else {
                    let err = PurgeError::UnexpectedStatusCode(
                        status,
                        self.url.clone(),
                        self.record_id,
                    );
                    self.fail_attempt(err)
                }
            },
        }
    }
}

/// A known-flaky host: a probe of a link under `url_prefix` that gives up on
/// `status` is taken as dead rather than undecided. This works around one
/// external host that answers this status for images it no longer has; it
/// is not a general rule.
#[derive(Debug, Clone, Copy)]
pub struct StatusOverride {
    pub url_prefix: &'static str,
    pub status: u16,
}

/// The known-flaky hosts.
pub open spec fn override_table() -> Seq<StatusOverride> {
    seq![StatusOverride { url_prefix: "http://cdn.awwni.me/169qt.jpg", status: 521 }]
}

/// The override table, in order.
pub fn status_overrides() -> (r: Vec<StatusOverride>)
    ensures
        r@ == override_table(),
{
    let mut v: Vec<StatusOverride> = Vec::new();
    v.push(StatusOverride { url_prefix: "http://cdn.awwni.me/169qt.jpg", status: 521 });
    assert(v@ =~= override_table());
    v
}

/// An undecided probe that the override table turns into a dead link.
pub open spec fn forced_dead(err: PurgeError) -> bool {
    match err {
        PurgeError::UnexpectedStatusCode(status, url, _) => exists|i: int|
            0 <= i < override_table().len() && (#[trigger] override_table()[i]).status == status
                && has_prefix(url@, override_table()[i].url_prefix@),
        _ => false,
    }
}

/// Whether the override table turns `err` into a dead link.
pub fn is_forced_dead(err: &PurgeError) -> (r: bool)
    ensures
        r == forced_dead(*err),
{
    match err {
        PurgeError::UnexpectedStatusCode(status, url, _) => {
            let table = status_overrides();
            let chars = char_vec(url.as_str());
            let mut i: usize = 0;
            while i < table.len()
                invariant
                    *err == PurgeError::UnexpectedStatusCode(
                        *status,
                        *url,
                        err->UnexpectedStatusCode_2,
                    ),
                    table@ == override_table(),
                    chars@ == url@,
                    i <= table@.len(),
                    forall|k: int|
                        0 <= k < i ==> !((#[trigger] override_table()[k]).status == *status
                            && has_prefix(url@, override_table()[k].url_prefix@)),
                decreases table@.len() - i,
            {
                let entry = table[i];
                if entry.status == *status && starts_with_chars(&chars, entry.url_prefix) {
                    assert(override_table()[i as int].status == *status && has_prefix(
                        url@,
                        override_table()[i as int].url_prefix@,
                    ));
                    return true;
                }
                i += 1;
            }
            false
        },
        _ => false,
    }
}

/// What a purge does with one link.
#[derive(Debug, Clone, Copy, PartialEq, Eq, Structural)]
pub enum Verdict {
    /// The link is dead: remove it.
    Remove,
    /// The link is live: leave it.
    Keep,
    /// Undecided: leave it and go on.
    Skip,
}

pub open spec fn verdict_of(o: ProbeOutcome) -> Verdict {
    match o {
        ProbeOutcome::Live => Verdict::Keep,
        ProbeOutcome::Dead => Verdict::Remove,
        ProbeOutcome::Indeterminate(e) => if forced_dead(e) {
            Verdict::Remove
        } else {
            Verdict::Skip
        },
    }
}

/// The verdict on a link whose probe ended with `o`.
pub fn verdict(o: &ProbeOutcome) -> (r: Verdict)
    ensures
        r == verdict_of(*o),
{
    match o {
        ProbeOutcome::Live => Verdict::Keep,
        ProbeOutcome::Dead => Verdict::Remove,
        ProbeOutcome::Indeterminate(e) => if is_forced_dead(e) {
            Verdict::Remove
        } else {
            Verdict::Skip
        },
    }
}

/// The totals of a purge over the probed links `seen` (id and outcome, in
/// the order visited): how many links are removed, and which ids are deleted
/// from the store. A dry run deletes nothing.
pub open spec fn purge_totals(seen: Seq<(i32, ProbeOutcome)>, dry_run: bool) -> (nat, Seq<i32>)
    decreases seen.len(),
{
    if seen.len() == 0 {
        (0, Seq::empty())
    } else {
        let prev = purge_totals(seen.drop_last(), dry_run);
        let last = seen.last();
        if verdict_of(last.1) == Verdict::Remove {
            (prev.0 + 1, if dry_run {
                prev.1
            } else {
                prev.1.push(last.0)
            })
        } else {
            prev
        }
    }
}

/// The state of a purge run, as contracts speak of it.
pub struct PurgeRunView {
    pub dry_run: bool,
    pub seen: Seq<(i32, ProbeOutcome)>,
    pub removed: nat,
}

/// The decisions of one purge run over the stored links, visited in
/// ascending id order: the caller probes each link and hands the outcome to
/// `record`, which says whether to delete it from the store.
pub struct PurgeRun {
    dry_run: bool,
    checked: usize,
    removed: usize,
    seen: Ghost<Seq<(i32, ProbeOutcome)>>,
}

impl View for PurgeRun {
    type V = PurgeRunView;

    closed spec fn view(&self) -> PurgeRunView {
        PurgeRunView { dry_run: self.dry_run, seen: self.seen@, removed: self.removed as nat }
    }
}

/// How often a run reports its progress, in links.
pub const PROGRESS_EVERY: usize = 100;

impl PurgeRun {
    pub closed spec fn wf(&self) -> bool {
        &&& self.checked as nat == self.seen@.len()
        &&& self.removed as nat == purge_totals(self.seen@, self.dry_run).0
        &&& self.removed <= self.checked
    }

    /// A run that has seen no link yet.
    pub fn new(dry_run: bool) -> (r: PurgeRun)
        ensures
            r.wf(),
            r@ == (PurgeRunView { dry_run, seen: Seq::empty(), removed: 0 }),
    {
        PurgeRun { dry_run, checked: 0, removed: 0, seen: Ghost(Seq::empty()) }
    }

    /// Links checked so far.
    pub fn checked(&self) -> (r: usize)
        requires
            self.wf(),
        ensures
            r == self@.seen.len(),
    {
        self.checked
    }

    /// Links removed so far (or that would be, in a dry run).
    pub fn removed(&self) -> (r: usize)
        requires
            self.wf(),
        ensures
            r == self@.removed,
            r == purge_totals(self@.seen, self@.dry_run).0,
    {
        self.removed
    }

    /// Whether progress is due before the next link: after every
    /// `PROGRESS_EVERY` links.
    pub fn progress_due(&self) -> (r: bool)
        requires
            self.wf(),
        ensures
            r == (self@.seen.len() != 0 && self@.seen.len() % (PROGRESS_EVERY as nat) == 0),
    {
        self.checked != 0 && self.checked % PROGRESS_EVERY == 0
    }

    /// Takes in the outcome of the probe of link `id`. Gives the id to delete
    /// from the store: that of a removed link, unless this is a dry run.
    pub fn record(&mut self, id: i32, outcome: ProbeOutcome) -> (r: Option<i32>)
        requires
            old(self).wf(),
            old(self)@.seen.len() < usize::MAX,
        ensures
            final(self).wf(),
            final(self)@.dry_run == old(self)@.dry_run,
            final(self)@.seen == old(self)@.seen.push((id, outcome)),
            r == (if verdict_of(outcome) == Verdict::Remove && !old(self)@.dry_run {
                Some(id)
            } else {
                None::<i32>
            }),
    {
        let v = verdict(&outcome);
        let ghost seen = self.seen@.push((id, outcome));
        assert(seen.drop_last() =~= self.seen@);
        self.seen = Ghost(seen);
        self.checked = self.checked + 1;
        if v == Verdict::Remove {
            self.removed = self.removed + 1;
            if self.dry_run {
                None
            } else {
                Some(id)
            }
        } else {
            None
        }
    }
}

/// The store's id of the first link a run visits; `InvalidStartIdValue`
/// where `start_at_id` does not fit an `i32`.
pub fn start_id(start_at_id: usize) -> (r: Result<i32, PurgeError>)
    ensures
        match r {
            Ok(id) => start_at_id <= i32::MAX && id as int == start_at_id as int,
            Err(e) => start_at_id > i32::MAX && e == PurgeError::InvalidStartIdValue,
        },
{
    if start_at_id <= 2147483647 {
        Ok(start_at_id as i32)
    } else {
        Err(PurgeError::InvalidStartIdValue)
    }
}

/// Dry runs: over the same probed links, a dry run removes as many links as
/// a real run, and deletes none from the store, so the store keeps its count;
/// a real run deletes one store id per removed link.
pub proof fn lemma_dry_run_parity(seen: Seq<(i32, ProbeOutcome)>)
    ensures
        purge_totals(seen, true).0 == purge_totals(seen, false).0,
        purge_totals(seen, true).1 == Seq::<i32>::empty(),
        purge_totals(seen, false).1.len() == purge_totals(seen, false).0,
    decreases seen.len(),
{
    if seen.len() > 0 {
        lemma_dry_run_parity(seen.drop_last());
    }
}

/// A probe fed the responses `evs` in order, up to the first verdict.
pub open spec fn run_probe(s: ProbeView, evs: Seq<ProbeEvent>) -> (ProbeView, Option<ProbeOutcome>)
    decreases evs.len(),
{
    if evs.len() == 0 {
        (s, None)
    } else {
        let (next, out) = probe_step(s, evs[0]);
        if out is Some {
            (next, out)
        } else {
            run_probe(next, evs.drop_first())
        }
    }
}

/// `n` responses with the same failing status and no `Location`.
pub open spec fn failing_responses(status: u16, n: nat) -> Seq<ProbeEvent> {
    Seq::new(n, |i: int| ProbeEvent::Response { status, location: None })
}

proof fn lemma_failures_from(s: ProbeView, status: u16, m: nat)
    requires
        1 <= s.attempt <= MAX_ATTEMPTS,
        is_failure_status(status),
        s.attempt + m <= MAX_ATTEMPTS + 1,
    ensures
        s.attempt + m <= MAX_ATTEMPTS ==> run_probe(s, failing_responses(status, m)).1 is None
            && run_probe(s, failing_responses(status, m)).0.attempt == s.attempt + m,
        s.attempt + m == MAX_ATTEMPTS + 1 ==> run_probe(s, failing_responses(status, m)).1 == Some(
            ProbeOutcome::Indeterminate(
                PurgeError::UnexpectedStatusCode(status, s.url, s.record_id),
            ),
        ),
    decreases m,
{
    let evs = failing_responses(status, m);
    if m > 0 {
        let (next, out) = probe_step(s, evs[0]);
        assert(evs.drop_first() =~= failing_responses(status, (m - 1) as nat));
        if s.attempt < MAX_ATTEMPTS {
            lemma_failures_from(next, status, (m - 1) as nat);
        }
    }
}

/// Retry ceiling: a link that answers a failing status (not a redirect, not
/// 404, not a success) on every request gets no verdict from its first four
/// attempts, and is undecided, with that status, after exactly the fifth.
pub proof fn lemma_retry_ceiling(
    url: String,
    record_id: i32,
    origin: (Option<Seq<char>>, Option<Seq<char>>, Option<Seq<char>>),
    status: u16,
    n: nat,
)
    requires
        is_failure_status(status),
        n <= MAX_ATTEMPTS,
    ensures
        n < MAX_ATTEMPTS ==> run_probe(
            fresh_probe(url, record_id, origin),
            failing_responses(status, n),
        ).1 is None,
        n == MAX_ATTEMPTS ==> run_probe(
            fresh_probe(url, record_id, origin),
            failing_responses(status, n),
        ).1 == Some(
            ProbeOutcome::Indeterminate(PurgeError::UnexpectedStatusCode(status, url, record_id)),
        ),
{
    lemma_failures_from(fresh_probe(url, record_id, origin), status, n);
}

/// A redirect response whose `Location` parses as a URI with an authority.
pub open spec fn is_absolute_redirect(ev: ProbeEvent) -> bool {
    &&& ev is Response
    &&& 300 <= ev->Response_status < 400
    &&& ev->Response_location is Some
    &&& uri_parse(ev->Response_location->Some_0@) is Some
    &&& uri_parse(ev->Response_location->Some_0@)->Some_0.1 is Some
}

/// A success response.
pub open spec fn is_success_response(ev: ProbeEvent) -> bool {
    ev is Response && 200 <= ev->Response_status < 300
}

proof fn lemma_chain_from(s: ProbeView, evs: Seq<ProbeEvent>)
    requires
        evs.len() >= 1,
        forall|i: int| 0 <= i < evs.len() - 1 ==> is_absolute_redirect(#[trigger] evs[i]),
    ensures
        is_success_response(evs.last()) && s.hops + evs.len() - 1 <= MAX_REDIRECTS ==> run_probe(
            s,
            evs,
        ).1 == Some(ProbeOutcome::Live),
        is_absolute_redirect(evs.last()) && s.hops + evs.len() == MAX_REDIRECTS + 1
            ==> run_probe(s, evs).1 == Some(
            ProbeOutcome::Indeterminate(PurgeError::TooManyRedirects),
        ),
    decreases evs.len(),
{
    if evs.len() > 1 {
        assert(is_absolute_redirect(evs[0]));
        let (next, out) = probe_step(s, evs[0]);
        let rest = evs.drop_first();
        assert forall|i: int| 0 <= i < rest.len() - 1 implies is_absolute_redirect(
            #[trigger] rest[i],
        ) by {
            assert(rest[i] == evs[i + 1]);
        }
        assert(rest.last() == evs.last());
        if s.hops + 1 <= MAX_REDIRECTS {
            lemma_chain_from(next, rest);
        }
    }
}

/// Redirect bound: a probe led through `evs` — redirects to absolute URIs,
/// then one last response — is live after at most ten redirects and a
/// success, and undecided (too many redirects) at the eleventh redirect; it
/// never follows more.
pub proof fn lemma_redirect_bound(
    url: String,
    record_id: i32,
    origin: (Option<Seq<char>>, Option<Seq<char>>, Option<Seq<char>>),
    evs: Seq<ProbeEvent>,
)
    requires
        evs.len() >= 1,
        forall|i: int| 0 <= i < evs.len() - 1 ==> is_absolute_redirect(#[trigger] evs[i]),
    ensures
        is_success_response(evs.last()) && evs.len() - 1 <= MAX_REDIRECTS ==> run_probe(
            fresh_probe(url, record_id, origin),
            evs,
        ).1 == Some(ProbeOutcome::Live),
        is_absolute_redirect(evs.last()) && evs.len() == MAX_REDIRECTS + 1 ==> run_probe(
            fresh_probe(url, record_id, origin),
            evs,
        ).1 == Some(ProbeOutcome::Indeterminate(PurgeError::TooManyRedirects)),
{
    lemma_chain_from(fresh_probe(url, record_id, origin), evs);
}

/// Dead links: a 404 on the first request is a dead link at once, with no
/// attempt beyond the first.
pub proof fn lemma_dead_at_once(
    url: String,
    record_id: i32,
    origin: (Option<Seq<char>>, Option<Seq<char>>, Option<Seq<char>>),
    location: Option<Vec<u8>>,
)
    ensures
        probe_step(
            fresh_probe(url, record_id, origin),
            ProbeEvent::Response { status: 404, location },
        ) == (fresh_probe(url, record_id, origin), Some(ProbeOutcome::Dead)),
{
}

} // verus!
