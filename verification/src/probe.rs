//! Portal detection: what a probe learns from a reply, how findings from
//! several probes combine, and which URLs are probed.
use vstd::prelude::*;
use crate::config::AppConfig;
use crate::error::{error_text, SrunError};
use crate::ip::IpAddress;
use crate::portal::{
    acid_from_text, looks_like_srun_portal, looks_like_srun_portal_spec, parse_acid_from_text,
    parse_portal_url_from_text, parse_user_ip_from_text, portal_url_from_text, response_is_jsonp,
    response_is_jsonp_spec, user_ip_from_text,
};
use crate::text::{append_str, chars_of, string_from, trim, views};
use crate::url::{
    candidate_origins_from_ip, candidate_origins_spec, configured_origin, configured_origin_spec,
    join_url, opt_view, origin_from_url, origin_of, parse_url, push_unique, push_unique_target,
    resolve_reference, url_parse, validate_outcome, validate_request_url, UrlPurpose,
};

verus! {

/// What portal detection has found so far.
#[derive(Clone, Debug)]
pub struct PortalProbe {
    pub portal_url: Option<String>,
    pub ac_id: Option<u32>,
    pub user_ip: Option<IpAddress>,
}

/// The mathematical content of a `PortalProbe`.
pub open spec fn probe_view(p: PortalProbe) -> (Option<Seq<char>>, Option<u32>, Option<IpAddress>) {
    (opt_view(p.portal_url), p.ac_id, p.user_ip)
}

/// Nothing found.
pub fn empty_probe() -> (res: PortalProbe)
    ensures
        res.portal_url is None,
        res.ac_id is None,
        res.user_ip is None,
{
    PortalProbe { portal_url: None, ac_id: None, user_ip: None }
}

/// The findings after reading `text`: each field still missing is taken
/// from the text; fields already found stay.
pub open spec fn merged_text(
    p: (Option<Seq<char>>, Option<u32>, Option<IpAddress>),
    text: Seq<char>,
) -> (Option<Seq<char>>, Option<u32>, Option<IpAddress>) {
    (
        if p.0 is None {
            portal_url_from_text(text)
        } else {
            p.0
        },
        if p.1 is None {
            acid_from_text(text)
        } else {
            p.1
        },
        if p.2 is None {
            user_ip_from_text(text)
        } else {
            p.2
        },
    )
}

/// Fills the findings still missing from `text`.
pub fn merge_probe_text(probe: &mut PortalProbe, text: &str)
    ensures
        probe_view(*final(probe)) == merged_text(probe_view(*old(probe)), text@),
{
    if probe.ac_id.is_none() {
        probe.ac_id = parse_acid_from_text(text);
    }
    if probe.user_ip.is_none() {
        probe.user_ip = parse_user_ip_from_text(text);
    }
    if probe.portal_url.is_none() {
        probe.portal_url = parse_portal_url_from_text(text);
    }
}

/// The findings of `target` completed by those of `source`.
pub open spec fn merged(
    t: (Option<Seq<char>>, Option<u32>, Option<IpAddress>),
    s: (Option<Seq<char>>, Option<u32>, Option<IpAddress>),
) -> (Option<Seq<char>>, Option<u32>, Option<IpAddress>) {
    (
        if t.0 is None {
            s.0
        } else {
            t.0
        },
        if t.1 is None {
            s.1
        } else {
            t.1
        },
        if t.2 is None {
            s.2
        } else {
            t.2
        },
    )
}

/// Merging only fills what is missing: what `target` found stays, a second
/// merge of the same findings changes nothing, and merging nothing changes
/// nothing.
pub proof fn lemma_merge_fills_only(
    t: (Option<Seq<char>>, Option<u32>, Option<IpAddress>),
    s: (Option<Seq<char>>, Option<u32>, Option<IpAddress>),
)
    ensures
        t.0 is Some ==> merged(t, s).0 == t.0,
        t.1 is Some ==> merged(t, s).1 == t.1,
        t.2 is Some ==> merged(t, s).2 == t.2,
        merged(merged(t, s), s) == merged(t, s),
        merged(t, (None::<Seq<char>>, None::<u32>, None::<IpAddress>)) == t,
{
}

/// Completes the findings in `target` with those of `source`.
pub fn merge_probe(target: &mut PortalProbe, source: PortalProbe)
    ensures
        probe_view(*final(target)) == merged(probe_view(*old(target)), probe_view(source)),
{
    if target.ac_id.is_none() {
        target.ac_id = source.ac_id;
    }
    if target.user_ip.is_none() {
        target.user_ip = source.user_ip;
    }
    if target.portal_url.is_none() {
        target.portal_url = source.portal_url;
    }
}

/// All of portal URL, `ac_id` and user address are found.
pub open spec fn has_identity(p: (Option<Seq<char>>, Option<u32>, Option<IpAddress>)) -> bool {
    p.0 is Some && p.1 is Some && p.2 is Some
}

/// Whether detection has found everything it looks for.
pub fn probe_has_identity(probe: &PortalProbe) -> (res: bool)
    ensures
        res == has_identity(probe_view(*probe)),
{
    probe.portal_url.is_some() && probe.ac_id.is_some() && probe.user_ip.is_some()
}

/// The record of one probe, for diagnostics.
#[derive(Clone, Debug)]
pub struct PortalProbeTrace {
    pub target: String,
    pub status: Option<u16>,
    pub location: Option<String>,
    pub error: Option<String>,
    pub portal_url: Option<String>,
    pub ac_id: Option<u32>,
    pub user_ip: Option<IpAddress>,
}

/// The trace carries the probe's findings.
pub open spec fn trace_matches(t: PortalProbeTrace, p: PortalProbe) -> bool {
    opt_view(t.portal_url) == opt_view(p.portal_url) && t.ac_id == p.ac_id && t.user_ip
        == p.user_ip
}

/// The result of a probe that failed before any reply: nothing found, and
/// the trace records the target and the failure message.
pub fn failed_probe(target: &str, message: String) -> (res: (PortalProbe, PortalProbeTrace))
    ensures
        probe_view(res.0) == (None::<Seq<char>>, None::<u32>, None::<IpAddress>),
        res.1.target@ == target@,
        res.1.status is None,
        res.1.location is None,
        opt_view(res.1.error) == Some(message@),
        trace_matches(res.1, res.0),
{
    let tv = chars_of(target);
    (
        empty_probe(),
        PortalProbeTrace {
            target: string_from(tv.as_slice()),
            status: None,
            location: None,
            error: Some(message),
            portal_url: None,
            ac_id: None,
            user_ip: None,
        },
    )
}

/// Checks a probe target against the request rule before sending: a
/// refused target gives the failed probe carrying the rule's message.
pub fn probe_precheck(target: &str, purpose: UrlPurpose) -> (res: Option<
    (PortalProbe, PortalProbeTrace),
>)
    ensures
        validate_outcome(Ok(()), target@, purpose) ==> res is None,
        res is None ==> validate_outcome(Ok(()), target@, purpose),
        res matches Some(r) ==> exists|e: SrunError|
            validate_outcome(Err(e), target@, purpose) && opt_view(r.1.error) == Some(error_text(e))
                && r.1.target@ == target@ && probe_view(r.0) == (
                None::<Seq<char>>,
                None::<u32>,
                None::<IpAddress>,
            ),
        res matches Some(r) ==> r.1.status is None && r.1.location is None && trace_matches(
            r.1,
            r.0,
        ),
{
    match validate_request_url(target, purpose) {
        Ok(()) => None,
        Err(e) => {
            let m = e.message();
            Some(failed_probe(target, m))
        },
    }
}

/// The origin of the URL a reply came from.
pub open spec fn reply_origin(response_url: Seq<char>) -> Option<Seq<char>> {
    match url_parse(response_url) {
        Ok(u) => origin_of(u),
        Err(_) => None,
    }
}

/// The origin of the URL a reply came from.
fn reply_origin_exec(response_url: &str) -> (res: Option<String>)
    ensures
        opt_view(res) == reply_origin(response_url@),
{
    match parse_url(response_url) {
        Ok(u) => origin_from_url(&u),
        Err(_) => None,
    }
}

/// A redirect target resolved against the URL it came from (kept as sent
/// when it does not resolve).
pub open spec fn resolved_location(response_url: Seq<char>, location: Seq<char>) -> Seq<char> {
    match resolve_reference(response_url, location) {
        Some(u) => u,
        None => location,
    }
}

/// What a connectivity probe learns from a reply: the redirect target (if
/// any) and the body are read for findings; when no portal URL was found
/// but an `ac_id`, an address or portal text was, the reply's own origin
/// is taken as the portal.
pub open spec fn probe_reply_findings(
    response_url: Seq<char>,
    location: Option<Seq<char>>,
    body: Seq<char>,
) -> (Option<Seq<char>>, Option<u32>, Option<IpAddress>) {
    let none = (None::<Seq<char>>, None::<u32>, None::<IpAddress>);
    let after_loc = match location {
        Some(l) => merged_text(none, resolved_location(response_url, l)),
        None => none,
    };
    let d = merged_text(after_loc, body);
    if d.0 is None && (d.1 is Some || d.2 is Some || looks_like_srun_portal_spec(body)) {
        (reply_origin(response_url), d.1, d.2)
    } else {
        d
    }
}

/// Reads the reply to a connectivity probe of `target`.
pub fn analyze_probe_reply(
    target: &str,
    status: u16,
    response_url: &str,
    location: Option<String>,
    body: &str,
) -> (res: (PortalProbe, PortalProbeTrace))
    ensures
        probe_view(res.0) == probe_reply_findings(response_url@, opt_view(location), body@),
        res.1.target@ == target@,
        res.1.status == Some(status),
        res.1.error is None,
        opt_view(res.1.location) == (match location {
            Some(l) => Some(resolved_location(response_url@, l@)),
            None => None,
        }),
        trace_matches(res.1, res.0),
{
    let mut detected = empty_probe();
    let mut trace_location: Option<String> = None;
    if let Some(loc) = location {
        let resolved = match join_url(response_url, loc.as_str()) {
            Some(u) => u,
            None => loc,
        };
        merge_probe_text(&mut detected, resolved.as_str());
        trace_location = Some(resolved);
    }
    merge_probe_text(&mut detected, body);
    if detected.portal_url.is_none() && (detected.ac_id.is_some() || detected.user_ip.is_some()
        || looks_like_srun_portal(body)) {
        detected.portal_url = reply_origin_exec(response_url);
    }
    let tv = chars_of(target);
    let trace = PortalProbeTrace {
        target: string_from(tv.as_slice()),
        status: Some(status),
        location: trace_location,
        error: None,
        portal_url: detected.portal_url.clone(),
        ac_id: detected.ac_id,
        user_ip: detected.user_ip,
    };
    (detected, trace)
}

/// What a probe of a guessed portal endpoint learns from a reply: the
/// reply URL and body are read for findings; the reply's origin is taken
/// as the portal when either looks like the portal, an `ac_id` or address
/// was found, or the body is a JSONP reply; a missing address is taken
/// from the local address.
pub open spec fn srun_reply_findings(
    response_url: Seq<char>,
    body: Seq<char>,
    local_ip: Option<IpAddress>,
) -> (Option<Seq<char>>, Option<u32>, Option<IpAddress>) {
    let none = (None::<Seq<char>>, None::<u32>, None::<IpAddress>);
    let d = merged_text(merged_text(none, response_url), body);
    let url = if looks_like_srun_portal_spec(response_url) || looks_like_srun_portal_spec(body)
        || d.1 is Some || d.2 is Some || response_is_jsonp_spec(body) {
        reply_origin(response_url)
    } else {
        d.0
    };
    (url, d.1, if d.2 is None {
        local_ip
    } else {
        d.2
    })
}

/// Reads the reply to a probe of the guessed portal endpoint `target`.
pub fn analyze_srun_reply(
    target: &str,
    status: u16,
    response_url: &str,
    body: &str,
    local_ip: Option<IpAddress>,
) -> (res: (PortalProbe, PortalProbeTrace))
    ensures
        probe_view(res.0) == srun_reply_findings(response_url@, body@, local_ip),
        res.1.target@ == target@,
        res.1.status == Some(status),
        res.1.location is None,
        res.1.error is None,
        trace_matches(res.1, res.0),
{
    let mut detected = empty_probe();
    merge_probe_text(&mut detected, response_url);
    merge_probe_text(&mut detected, body);
    if looks_like_srun_portal(response_url) || looks_like_srun_portal(body)
        || detected.ac_id.is_some() || detected.user_ip.is_some() || response_is_jsonp(body) {
        detected.portal_url = reply_origin_exec(response_url);
    }
    if detected.user_ip.is_none() {
        detected.user_ip = local_ip;
    }
    let tv = chars_of(target);
    let trace = PortalProbeTrace {
        target: string_from(tv.as_slice()),
        status: Some(status),
        location: None,
        error: None,
        portal_url: detected.portal_url.clone(),
        ac_id: detected.ac_id,
        user_ip: detected.user_ip,
    };
    (detected, trace)
}

/// A probe shows the internet is reachable: it found no portal, did not
/// fail, and got a 2xx or 3xx status.
pub open spec fn shows_internet_spec(p: PortalProbe, t: PortalProbeTrace) -> bool {
    p.portal_url is None && t.error is None && (t.status matches Some(s) && 200 <= s < 400)
}

/// Whether a probe shows the internet is reachable.
pub fn shows_internet(probe: &PortalProbe, trace: &PortalProbeTrace) -> (res: bool)
    ensures
        res == shows_internet_spec(*probe, *trace),
{
    probe.portal_url.is_none() && trace.error.is_none() && match trace.status {
        Some(s) => 200 <= s && s < 400,
        None => false,
    }
}


/// The internet check: a probe that found a portal (a captive-portal
/// redirect or page) never shows the internet, nor does a failed probe or
/// one without a status; a probe that found no portal, did not fail and got
/// a success or redirect status does.
pub proof fn lemma_portal_means_offline(p: PortalProbe, t: PortalProbeTrace)
    ensures
        p.portal_url is Some ==> !shows_internet_spec(p, t),
        t.error is Some ==> !shows_internet_spec(p, t),
        t.status is None ==> !shows_internet_spec(p, t),
        (t.status matches Some(s) && (s < 200 || s >= 400)) ==> !shows_internet_spec(p, t),
        (p.portal_url is None && t.error is None && (t.status matches Some(s) && 200 <= s < 400))
            ==> shows_internet_spec(p, t),
{
}

/// The findings after taking probe results in order until everything is
/// found, and how many results were taken.
pub open spec fn absorbed(
    d: (Option<Seq<char>>, Option<u32>, Option<IpAddress>),
    results: Seq<(Option<Seq<char>>, Option<u32>, Option<IpAddress>)>,
) -> ((Option<Seq<char>>, Option<u32>, Option<IpAddress>), nat)
    decreases results.len(),
{
    if results.len() == 0 {
        (d, 0)
    } else {
        let m = merged(d, results[0]);
        if has_identity(m) {
            (m, 1)
        } else {
            let r = absorbed(m, results.drop_first());
            (r.0, r.1 + 1)
        }
    }
}

/// The findings of a list of probe results.
pub open spec fn result_views(results: Seq<(PortalProbe, PortalProbeTrace)>) -> Seq<
    (Option<Seq<char>>, Option<u32>, Option<IpAddress>),
> {
    results.map_values(|r: (PortalProbe, PortalProbeTrace)| probe_view(r.0))
}

/// The records of a list of probe results.
pub open spec fn result_traces(results: Seq<(PortalProbe, PortalProbeTrace)>) -> Seq<
    PortalProbeTrace,
> {
    results.map_values(|r: (PortalProbe, PortalProbeTrace)| r.1)
}

/// At most `k` results are taken.
proof fn lemma_absorbed_count(
    d: (Option<Seq<char>>, Option<u32>, Option<IpAddress>),
    results: Seq<(Option<Seq<char>>, Option<u32>, Option<IpAddress>)>,
)
    ensures
        absorbed(d, results).1 <= results.len(),
        results.len() > 0 ==> absorbed(d, results).1 >= 1,
        absorbed(d, results).1 < results.len() ==> has_identity(absorbed(d, results).0),
        has_identity(absorbed(d, results).0) && results.len() > 0 || absorbed(d, results).1
            == results.len(),
    decreases results.len(),
{
    if results.len() > 0 {
        lemma_absorbed_count(merged(d, results[0]), results.drop_first());
    }
}

/// Takes probe results in order into the findings, recording each taken
/// result's trace, until everything is found; says whether it was.
pub fn absorb_probe_results(
    detected: &mut PortalProbe,
    traces: &mut Vec<PortalProbeTrace>,
    results: Vec<(PortalProbe, PortalProbeTrace)>,
) -> (done: bool)
    ensures
        probe_view(*final(detected)) == absorbed(probe_view(*old(detected)), result_views(results@)).0,
        final(traces)@ == old(traces)@ + result_traces(results@).take(
            absorbed(probe_view(*old(detected)), result_views(results@)).1 as int,
        ),
        done == (results@.len() > 0 && has_identity(
            absorbed(probe_view(*old(detected)), result_views(results@)).0,
        )),
{
    let ghost all = results@;
    let ghost start = probe_view(*detected);
    let ghost start_traces = traces@;
    let mut rest = results;
    let ghost mut taken: nat = 0;
    proof {
        assert(all.skip(0) =~= all);
        lemma_absorbed_count(start, result_views(all));
    }
    while rest.len() > 0
        invariant
            start == probe_view(*old(detected)),
            start_traces == old(traces)@,
            all == results@,
            taken <= all.len(),
            rest@ == all.skip(taken as int),
            absorbed(start, result_views(all)) == (
                absorbed(probe_view(*detected), result_views(rest@)).0,
                absorbed(probe_view(*detected), result_views(rest@)).1 + taken,
            ),
            traces@ == start_traces + result_traces(all).take(taken as int),
            taken > 0 ==> !has_identity(probe_view(*detected)),
        decreases rest@.len(),
    {
        let ghost rest_before = rest@;
        let (probe, trace) = rest.remove(0);
        proof {
            assert(rest_before[0] == (probe, trace));
            assert(result_views(rest_before)[0] == probe_view(probe));
            assert(result_views(rest_before).drop_first() =~= result_views(rest@));
            assert(rest@ =~= all.skip(taken + 1int));
            assert(result_traces(all)[taken as int] == trace);
            assert(result_traces(all).take(taken + 1int) =~= result_traces(all).take(
                taken as int,
            ).push(trace));
        }
        let ghost before = probe_view(*detected);
        traces.push(trace);
        assert(traces@ =~= start_traces + result_traces(all).take(taken + 1int));
        merge_probe(detected, probe);
        proof {
            taken = taken + 1;
        }
        if probe_has_identity(detected) {
            assert(absorbed(before, result_views(rest_before)) == (probe_view(*detected), 1nat));
            return true;
        }
        assert(absorbed(before, result_views(rest_before)) == (
            absorbed(probe_view(*detected), result_views(rest@)).0,
            absorbed(probe_view(*detected), result_views(rest@)).1 + 1,
        ));
    }
    false
}

} // verus!
