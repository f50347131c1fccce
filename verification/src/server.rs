use vstd::prelude::*;

use crate::messages::responses::{
    AuthorizeResponse, DataTransferResponse, SignCertificateResponse, StartTransactionResponse,
    StopTransactionResponse,
};
use crate::messages::{Call, CallError, CallResult};
use crate::strutil::{dequoted, remove_quotes, str_eq};
use crate::json::{json_get, json_text, json_to_string, Json};
use crate::messages::{
    append_quoted, encode_call_error, quoted, wrap_call, wrap_call_result, wrap_call_result_spec,
    wrap_call_spec, MessageView, OcppMessage,
};
use crate::schema::{
    authorize_response_matches_json, check_operator_payload, data_transfer_response_matches_json,
    json_to_authorize_response, json_to_data_transfer_response,
    json_to_sign_certificate_response, json_to_start_transaction_response,
    json_to_stop_transaction_response, operator_payload_ok, sign_certificate_response_matches_json,
    start_transaction_response_matches_json, stop_transaction_response_matches_json,
    valid_authorize_resp, valid_data_transfer_resp, valid_sign_certificate_resp,
    valid_start_transaction_resp, valid_stop_transaction_resp,
};

verus! {

/// What the router ships to a charge-station session: either a raw wire
/// text to write to the peer, or new defaults for any subset of the
/// five overridable reply payloads.
pub struct MessageToChargeStation {
    pub message: Option<String>,
    pub authorize: Option<AuthorizeResponse>,
    pub data_transfer: Option<DataTransferResponse>,
    pub sign_certificate: Option<SignCertificateResponse>,
    pub start_transaction: Option<StartTransactionResponse>,
    pub stop_transaction: Option<StopTransactionResponse>,
}

impl Default for MessageToChargeStation {
    fn default() -> (r: MessageToChargeStation)
        ensures
            r.message is None,
            r.authorize is None,
            r.data_transfer is None,
            r.sign_certificate is None,
            r.start_transaction is None,
            r.stop_transaction is None,
    {
        MessageToChargeStation {
            message: None,
            authorize: None,
            data_transfer: None,
            sign_certificate: None,
            start_transaction: None,
            stop_transaction: None,
        }
    }
}

/// A frame a charge-station session hands to the router: exactly one of
/// the three shapes is present.
pub struct MessageFromChargeStation {
    pub charger_id: String,
    pub call: Option<Call>,
    pub call_result: Option<CallResult>,
    pub call_error: Option<CallError>,
}

/// First match for `key` among the pairs at or after position `i`.
pub open spec fn assoc_get_from(s: Seq<(String, String)>, key: Seq<char>, i: int) -> Option<
    Seq<char>,
>
    decreases s.len() - i,
{
    if i < 0 || i >= s.len() {
        None
    } else if s[i].0@ == key {
        Some(s[i].1@)
    } else {
        assoc_get_from(s, key, i + 1)
    }
}

/// Lookup in an association list, by the first match.
pub open spec fn assoc_get(s: Seq<(String, String)>, key: Seq<char>) -> Option<Seq<char>> {
    assoc_get_from(s, key, 0)
}

/// `v` occurs among the ids.
pub open spec fn id_listed(s: Seq<String>, v: Seq<char>) -> bool {
    exists|i: int| 0 <= i < s.len() && s[i]@ == v
}

/// The keys of the association list are pairwise distinct.
pub open spec fn assoc_unique(s: Seq<(String, String)>) -> bool {
    forall|i: int, j: int| 0 <= i < j < s.len() ==> s[i].0@ != s[j].0@
}

/// The ids are pairwise distinct.
pub open spec fn ids_unique(s: Seq<String>) -> bool {
    forall|i: int, j: int| 0 <= i < j < s.len() ==> s[i]@ != s[j]@
}

proof fn lemma_assoc_push_from(s: Seq<(String, String)>, e: (String, String), m: Seq<char>, i: int)
    requires
        0 <= i <= s.len(),
    ensures
        assoc_get_from(s.push(e), m, i) == (match assoc_get_from(s, m, i) {
            Some(v) => Some(v),
            None => if e.0@ == m {
                Some(e.1@)
            } else {
                None
            },
        }),
    decreases s.len() - i,
{
    if i == s.len() {
        assert(s.push(e)[i] == e);
    } else {
        assert(s.push(e)[i] == s[i]);
        lemma_assoc_push_from(s, e, m, i + 1);
    }
}

proof fn lemma_assoc_some_from(s: Seq<(String, String)>, m: Seq<char>, i: int)
    requires
        0 <= i <= s.len(),
    ensures
        (assoc_get_from(s, m, i) is Some) <==> exists|k: int| i <= k < s.len() && s[k].0@ == m,
    decreases s.len() - i,
{
    if i < s.len() {
        lemma_assoc_some_from(s, m, i + 1);
    }
}

/// Membership scan.
pub(crate) fn contains_id(v: &Vec<String>, id: &String) -> (r: bool)
    ensures
        r == id_listed(v@, id@),
{
    let mut i: usize = 0;
    while i < v.len()
        invariant
            0 <= i <= v@.len(),
            forall|k: int| 0 <= k < i ==> v@[k]@ != id@,
        decreases v@.len() - i,
    {
        if str_eq(v[i].as_str(), id.as_str()) {
            assert(v@[i as int]@ == id@);
            return true;
        }
        i += 1;
    }
    false
}

/// Lookup scan over an association list.
fn assoc_lookup<'a>(v: &'a Vec<(String, String)>, key: &String) -> (r: Option<&'a String>)
    ensures
        match r {
            Some(s) => assoc_get(v@, key@) == Some(s@),
            None => assoc_get(v@, key@) is None,
        },
{
    let mut i: usize = 0;
    while i < v.len()
        invariant
            0 <= i <= v@.len(),
            assoc_get_from(v@, key@, 0) == assoc_get_from(v@, key@, i as int),
        decreases v@.len() - i,
    {
        if str_eq(v[i].0.as_str(), key.as_str()) {
            return Some(&v[i].1);
        }
        i += 1;
    }
    None
}

/// Removes every occurrence of `id`.
#[verifier::loop_isolation(false)]
fn remove_id(v: &mut Vec<String>, id: &String)
    requires
        ids_unique(old(v)@),
    ensures
        ids_unique(final(v)@),
        forall|x: Seq<char>|
            #[trigger] id_listed(final(v)@, x) == (x != id@ && id_listed(old(v)@, x)),
        forall|k: int| 0 <= k < final(v)@.len() ==> final(v)@[k]@ != id@,
{
    let n = v.len();
    let mut kept: Vec<String> = Vec::new();
    let mut i: usize = 0;
    while i < n
        invariant
            v@ == old(v)@,
            v@.len() == n,
            0 <= i <= n,
            ids_unique(kept@),
            forall|x: Seq<char>|
                #[trigger] id_listed(kept@, x) == (x != id@ && id_listed(
                    v@.subrange(0, i as int),
                    x,
                )),
            forall|k: int| 0 <= k < kept@.len() ==> kept@[k]@ != id@,
        decreases n - i,
    {
        let ghost pre = kept@;
        let keep = !str_eq(v[i].as_str(), id.as_str());
        if keep {
            let item = v[i].clone();
            assert(item@ == v@[i as int]@);
            kept.push(item);
        }
        proof {
            let sub1 = v@.subrange(0, i + 1 as int);
            let sub0 = v@.subrange(0, i as int);
            assert forall|x: Seq<char>| #[trigger] id_listed(sub1, x) == (id_listed(sub0, x)
                || v@[i as int]@ == x) by {
                if id_listed(sub1, x) {
                    let k = choose|k: int| 0 <= k < sub1.len() && sub1[k]@ == x;
                    if k < i {
                        assert(sub0[k]@ == x);
                    } else {
                        assert(sub1[k]@ == v@[i as int]@);
                    }
                }
                if id_listed(sub0, x) {
                    let k = choose|k: int| 0 <= k < sub0.len() && sub0[k]@ == x;
                    assert(sub1[k]@ == x);
                }
                if v@[i as int]@ == x {
                    assert(sub1[i as int]@ == x);
                }
            }
            if keep {
                assert forall|x: Seq<char>| #[trigger] id_listed(kept@, x) == (id_listed(pre, x)
                    || v@[i as int]@ == x) by {
                    if id_listed(kept@, x) {
                        let k = choose|k: int| 0 <= k < kept@.len() && kept@[k]@ == x;
                        if k < pre.len() {
                            assert(pre[k]@ == x);
                        } else {
                            assert(kept@[k]@ == v@[i as int]@);
                        }
                    }
                    if id_listed(pre, x) {
                        let k = choose|k: int| 0 <= k < pre.len() && pre[k]@ == x;
                        assert(kept@[k]@ == x);
                    }
                    if v@[i as int]@ == x {
                        assert(kept@[kept@.len() - 1]@ == x);
                    }
                }
                assert(ids_unique(kept@)) by {
                    assert forall|a: int, b: int| 0 <= a < b < kept@.len() implies kept@[a]@
                        != kept@[b]@ by {
                        if b == kept@.len() - 1 {
                            assert(id_listed(pre, pre[a]@));
                            let w = pre[a]@;
                            assert(id_listed(sub0, w));
                            let k = choose|k: int| 0 <= k < sub0.len() && sub0[k]@ == w;
                            assert(v@[k]@ == w);
                            assert(v@[k]@ != v@[i as int]@);
                        }
                    }
                }
            }
        }
        i += 1;
    }
    proof {
        assert(v@.subrange(0, n as int) =~= v@);
    }
    *v = kept;
}

/// What the sweep of `assoc_remove_value` leaves of a lookup: entries
/// whose value is `val` are gone, the rest answer as before.
pub open spec fn assoc_get_swept(
    s: Seq<(String, String)>,
    m: Seq<char>,
    val: Seq<char>,
) -> Option<Seq<char>> {
    match assoc_get(s, m) {
        Some(c) => if c == val {
            None
        } else {
            Some(c)
        },
        None => None,
    }
}

/// Removes the entry with key `key`, if any.
#[verifier::loop_isolation(false)]
fn assoc_remove_key(v: &mut Vec<(String, String)>, key: &String)
    requires
        assoc_unique(old(v)@),
    ensures
        assoc_unique(final(v)@),
        forall|m: Seq<char>|
            #[trigger] assoc_get(final(v)@, m) == (if m == key@ {
                None
            } else {
                assoc_get(old(v)@, m)
            }),
        forall|k: int| 0 <= k < final(v)@.len() ==> final(v)@[k].0@ != key@,
{
    let n = v.len();
    let mut kept: Vec<(String, String)> = Vec::new();
    let mut i: usize = 0;
    while i < n
        invariant
            v@ == old(v)@,
            v@.len() == n,
            0 <= i <= n,
            assoc_unique(kept@),
            forall|m: Seq<char>|
                #[trigger] assoc_get(kept@, m) == (if m == key@ {
                    None
                } else {
                    assoc_get(v@.subrange(0, i as int), m)
                }),
            forall|k: int| 0 <= k < kept@.len() ==> kept@[k].0@ != key@,
        decreases n - i,
    {
        let ghost pre = kept@;
        let ghost sub0 = v@.subrange(0, i as int);
        let ghost sub1 = v@.subrange(0, i + 1 as int);
        let keep = !str_eq(v[i].0.as_str(), key.as_str());
        if keep {
            let item = (v[i].0.clone(), v[i].1.clone());
            assert(item.0@ == v@[i as int].0@ && item.1@ == v@[i as int].1@);
            proof {
                if exists|a: int| 0 <= a < pre.len() && pre[a].0@ == item.0@ {
                    let a = choose|a: int| 0 <= a < pre.len() && pre[a].0@ == item.0@;
                    lemma_assoc_some_from(pre, item.0@, 0);
                    assert(assoc_get(pre, item.0@) is Some);
                    lemma_assoc_some_from(sub0, item.0@, 0);
                    let b = choose|b: int| 0 <= b < sub0.len() && sub0[b].0@ == item.0@;
                    assert(v@[b].0@ == v@[i as int].0@ && b < i);
                    assert(false);
                }
            }
            kept.push(item);
            proof {
                assert forall|m: Seq<char>| #[trigger] assoc_get(kept@, m) == (if m == key@ {
                    None
                } else {
                    assoc_get(sub1, m)
                }) by {
                    let e = kept@[kept@.len() - 1];
                    assert(kept@ == pre.push(e));
                    assert(e.0@ == v@[i as int].0@ && e.1@ == v@[i as int].1@);
                    assert(assoc_get(pre, m) == (if m == key@ {
                        None
                    } else {
                        assoc_get(sub0, m)
                    }));
                    lemma_assoc_push_from(pre, e, m, 0);
                    assert(sub1 =~= sub0.push(v@[i as int]));
                    lemma_assoc_push_from(sub0, v@[i as int], m, 0);
                }
            }
        } else {
            proof {
                assert forall|m: Seq<char>| #[trigger] assoc_get(kept@, m) == (if m == key@ {
                    None
                } else {
                    assoc_get(sub1, m)
                }) by {
                    assert(sub1 =~= sub0.push(v@[i as int]));
                    lemma_assoc_push_from(sub0, v@[i as int], m, 0);
                }
            }
        }
        i += 1;
    }
    proof {
        assert(v@.subrange(0, n as int) =~= v@);
    }
    *v = kept;
}

/// Removes every entry whose value is `val`.
#[verifier::loop_isolation(false)]
fn assoc_remove_value(v: &mut Vec<(String, String)>, val: &String)
    requires
        assoc_unique(old(v)@),
    ensures
        assoc_unique(final(v)@),
        forall|m: Seq<char>|
            #[trigger] assoc_get(final(v)@, m) == assoc_get_swept(old(v)@, m, val@),
        forall|k: int| 0 <= k < final(v)@.len() ==> final(v)@[k].1@ != val@,
{
    let n = v.len();
    let mut kept: Vec<(String, String)> = Vec::new();
    let mut i: usize = 0;
    while i < n
        invariant
            v@ == old(v)@,
            v@.len() == n,
            0 <= i <= n,
            assoc_unique(kept@),
            forall|m: Seq<char>|
                #[trigger] assoc_get(kept@, m) == assoc_get_swept(
                    v@.subrange(0, i as int),
                    m,
                    val@,
                ),
            forall|k: int| 0 <= k < kept@.len() ==> kept@[k].1@ != val@,
        decreases n - i,
    {
        let ghost pre = kept@;
        let ghost sub0 = v@.subrange(0, i as int);
        let ghost sub1 = v@.subrange(0, i + 1 as int);
        let keep = !str_eq(v[i].1.as_str(), val.as_str());
        if keep {
            let item = (v[i].0.clone(), v[i].1.clone());
            assert(item.0@ == v@[i as int].0@ && item.1@ == v@[i as int].1@);
            proof {
                if exists|a: int| 0 <= a < pre.len() && pre[a].0@ == item.0@ {
                    let a = choose|a: int| 0 <= a < pre.len() && pre[a].0@ == item.0@;
                    lemma_assoc_some_from(pre, item.0@, 0);
                    assert(assoc_get(pre, item.0@) is Some);
                    lemma_assoc_some_from(sub0, item.0@, 0);
                    let b = choose|b: int| 0 <= b < sub0.len() && sub0[b].0@ == item.0@;
                    assert(v@[b].0@ == v@[i as int].0@ && b < i);
                    assert(false);
                }
            }
            kept.push(item);
            proof {
                assert forall|m: Seq<char>| #[trigger] assoc_get(kept@, m) == assoc_get_swept(
                    sub1,
                    m,
                    val@,
                ) by {
                    let e = kept@[kept@.len() - 1];
                    assert(kept@ == pre.push(e));
                    assert(e.0@ == v@[i as int].0@ && e.1@ == v@[i as int].1@);
                    assert(assoc_get(pre, m) == assoc_get_swept(sub0, m, val@));
                    lemma_assoc_push_from(pre, e, m, 0);
                    assert(sub1 =~= sub0.push(v@[i as int]));
                    lemma_assoc_push_from(sub0, v@[i as int], m, 0);
                    if assoc_get(sub0, m) is Some && e.0@ == m {
                        lemma_assoc_some_from(sub0, m, 0);
                        let b = choose|b: int| 0 <= b < sub0.len() && sub0[b].0@ == m;
                        assert(v@[b].0@ == m);
                        assert(false);
                    }
                }
            }
        } else {
            proof {
                assert forall|m: Seq<char>| #[trigger] assoc_get(kept@, m) == assoc_get_swept(
                    sub1,
                    m,
                    val@,
                ) by {
                    assert(sub1 =~= sub0.push(v@[i as int]));
                    lemma_assoc_push_from(sub0, v@[i as int], m, 0);
                }
            }
        }
        i += 1;
    }
    proof {
        assert(v@.subrange(0, n as int) =~= v@);
    }
    *v = kept;
}

/// Inserts or replaces the entry for `key`.
fn assoc_insert(v: &mut Vec<(String, String)>, key: String, val: String)
    requires
        assoc_unique(old(v)@),
    ensures
        assoc_unique(final(v)@),
        forall|m: Seq<char>|
            #[trigger] assoc_get(final(v)@, m) == (if m == key@ {
                Some(val@)
            } else {
                assoc_get(old(v)@, m)
            }),
{
    let ghost keyv = key@;
    let ghost valv = val@;
    assoc_remove_key(v, &key);
    let ghost mid = v@;
    v.push((key, val));
    proof {
        assert forall|m: Seq<char>| #[trigger] assoc_get(v@, m) == (if m == keyv {
            Some(valv)
        } else {
            assoc_get(old(v)@, m)
        }) by {
            let e = v@[v@.len() - 1];
            assert(v@ == mid.push(e));
            assert(e.0@ == keyv && e.1@ == valv);
            assert(assoc_get(mid, m) == (if m == keyv {
                None
            } else {
                assoc_get(old(v)@, m)
            }));
            lemma_assoc_push_from(mid, e, m, 0);
        }
        assert(assoc_unique(v@)) by {
            assert forall|a: int, b: int| 0 <= a < b < v@.len() implies v@[a].0@ != v@[b].0@ by {
                if b == v@.len() - 1 {
                    assert(mid[a].0@ != keyv);
                }
            }
        }
    }
}

/// Inserts an entry for `key` only when none is there.
fn assoc_insert_if_absent(v: &mut Vec<(String, String)>, key: String, val: String)
    requires
        assoc_unique(old(v)@),
    ensures
        assoc_unique(final(v)@),
        forall|m: Seq<char>|
            #[trigger] assoc_get(final(v)@, m) == (if m == key@ && assoc_get(old(v)@, m) is None {
                Some(val@)
            } else {
                assoc_get(old(v)@, m)
            }),
{
    let ghost keyv = key@;
    let ghost valv = val@;
    match assoc_lookup(v, &key) {
        Some(_) => {},
        None => {
            let ghost mid = v@;
            v.push((key, val));
            proof {
                assert forall|m: Seq<char>| #[trigger] assoc_get(v@, m) == (if m == keyv
                    && assoc_get(mid, m) is None {
                    Some(valv)
                } else {
                    assoc_get(mid, m)
                }) by {
                    let e = v@[v@.len() - 1];
                    assert(v@ == mid.push(e));
                    assert(e.0@ == keyv && e.1@ == valv);
                    lemma_assoc_push_from(mid, e, m, 0);
                }
                assert(assoc_unique(v@)) by {
                    assert forall|a: int, b: int| 0 <= a < b < v@.len() implies v@[a].0@
                        != v@[b].0@ by {
                        if b == v@.len() - 1 {
                            lemma_assoc_some_from(mid, mid[a].0@, 0);
                        }
                    }
                }
            }
        },
    }
}

/// A command received from an operator browser: the target charger,
/// the action name, the kind of message (2 issues a Call, 3 ships a
/// default reply), and the payload.
pub struct MessageFromWebBrowser {
    pub client_id: String,
    pub charger: String,
    pub selected: String,
    pub message_id: u8,
    pub payload: Json,
}

/// What the router decides for one operator command. The caller
/// performs the deliveries: the wire text or envelope goes to the
/// target station when it is connected, the echo or confirmation or
/// notice goes back to the operator.
pub enum WebCommandOutcome {
    CallIssued { charger_listed: bool, wire: String, echo: String },
    SetDefault { charger_listed: bool, envelope: MessageToChargeStation, confirmation: String },
    Invalid { notice: String },
    Ignored,
}

/// The routing state: connected stations, connected operators, the
/// correlation map of outstanding operator-issued Calls, and the
/// charger-to-operator pairing used for unsolicited traffic.
pub struct OcppServer {
    pub awaiting_call_result: Vec<(String, String)>,
    pub websocket_workers: Vec<String>,
    pub webclient_workers: Vec<String>,
    pub chargers_webclients_pair: Vec<(String, String)>,
}

impl OcppServer {
    /// Every registry holds each key at most once.
    pub open spec fn wf(self) -> bool {
        &&& ids_unique(self.websocket_workers@)
        &&& ids_unique(self.webclient_workers@)
        &&& assoc_unique(self.awaiting_call_result@)
        &&& assoc_unique(self.chargers_webclients_pair@)
    }

    pub open spec fn station_listed(self, id: Seq<char>) -> bool {
        id_listed(self.websocket_workers@, id)
    }

    pub open spec fn operator_listed(self, id: Seq<char>) -> bool {
        id_listed(self.webclient_workers@, id)
    }

    /// The operator awaiting the reply with this MessageId, if any.
    pub open spec fn pending(self, mid: Seq<char>) -> Option<Seq<char>> {
        assoc_get(self.awaiting_call_result@, mid)
    }

    pub open spec fn pending_entries(self) -> Seq<(String, String)> {
        self.awaiting_call_result@
    }

    /// The operator paired with this charger, if any.
    pub open spec fn pair_of(self, charger: Seq<char>) -> Option<Seq<char>> {
        assoc_get(self.chargers_webclients_pair@, charger)
    }

    pub fn new() -> (r: OcppServer)
        ensures
            r.wf(),
            forall|id: Seq<char>| !(#[trigger] r.station_listed(id)),
            forall|id: Seq<char>| !(#[trigger] r.operator_listed(id)),
            forall|m: Seq<char>| #[trigger] r.pending(m) is None,
            forall|c: Seq<char>| #[trigger] r.pair_of(c) is None,
    {
        OcppServer {
            awaiting_call_result: Vec::new(),
            websocket_workers: Vec::new(),
            webclient_workers: Vec::new(),
            chargers_webclients_pair: Vec::new(),
        }
    }

    /// Registers a charge station. A station with the same id that was
    /// already registered is displaced: the result says so, and the
    /// caller closes the displaced session. The new registration is
    /// effective immediately.
    pub fn connect_charger(&mut self, serial_id: String) -> (replaced: bool)
        requires
            old(self).wf(),
        ensures
            final(self).wf(),
            replaced == old(self).station_listed(serial_id@),
            final(self).station_listed(serial_id@),
            forall|x: Seq<char>|
                x != serial_id@ ==> #[trigger] final(self).station_listed(x) == old(
                    self,
                ).station_listed(x),
            final(self).webclient_workers == old(self).webclient_workers,
            final(self).awaiting_call_result == old(self).awaiting_call_result,
            final(self).chargers_webclients_pair == old(self).chargers_webclients_pair,
    {
        let ghost idv = serial_id@;
        if contains_id(&self.websocket_workers, &serial_id) {
            true
        } else {
            let ghost pre = self.websocket_workers@;
            self.websocket_workers.push(serial_id);
            proof {
                assert(self.websocket_workers@[pre.len() as int]@ == idv);
                assert forall|x: Seq<char>| x != idv implies #[trigger] id_listed(
                    self.websocket_workers@,
                    x,
                ) == id_listed(pre, x) by {
                    if id_listed(self.websocket_workers@, x) {
                        let k = choose|k: int|
                            0 <= k < self.websocket_workers@.len()
                                && self.websocket_workers@[k]@ == x;
                        assert(k < pre.len());
                        assert(pre[k]@ == x);
                    }
                    if id_listed(pre, x) {
                        let k = choose|k: int| 0 <= k < pre.len() && pre[k]@ == x;
                        assert(self.websocket_workers@[k]@ == x);
                    }
                }
                assert(ids_unique(self.websocket_workers@)) by {
                    assert forall|a: int, b: int|
                        0 <= a < b < self.websocket_workers@.len() implies self.websocket_workers@[a]@
                        != self.websocket_workers@[b]@ by {
                        if b == self.websocket_workers@.len() - 1 {
                            assert(id_listed(pre, pre[a]@));
                        }
                    }
                }
            }
            false
        }
    }

    /// Registers an operator browser; a prior registration under the
    /// same id is displaced.
    pub fn connect_web_client(&mut self, serial_id: String) -> (replaced: bool)
        requires
            old(self).wf(),
        ensures
            final(self).wf(),
            replaced == old(self).operator_listed(serial_id@),
            final(self).operator_listed(serial_id@),
            forall|x: Seq<char>|
                x != serial_id@ ==> #[trigger] final(self).operator_listed(x) == old(
                    self,
                ).operator_listed(x),
            final(self).websocket_workers == old(self).websocket_workers,
            final(self).awaiting_call_result == old(self).awaiting_call_result,
            final(self).chargers_webclients_pair == old(self).chargers_webclients_pair,
    {
        let ghost idv = serial_id@;
        if contains_id(&self.webclient_workers, &serial_id) {
            true
        } else {
            let ghost pre = self.webclient_workers@;
            self.webclient_workers.push(serial_id);
            proof {
                assert(self.webclient_workers@[pre.len() as int]@ == idv);
                assert forall|x: Seq<char>| x != idv implies #[trigger] id_listed(
                    self.webclient_workers@,
                    x,
                ) == id_listed(pre, x) by {
                    if id_listed(self.webclient_workers@, x) {
                        let k = choose|k: int|
                            0 <= k < self.webclient_workers@.len()
                                && self.webclient_workers@[k]@ == x;
                        assert(k < pre.len());
                        assert(pre[k]@ == x);
                    }
                    if id_listed(pre, x) {
                        let k = choose|k: int| 0 <= k < pre.len() && pre[k]@ == x;
                        assert(self.webclient_workers@[k]@ == x);
                    }
                }
                assert(ids_unique(self.webclient_workers@)) by {
                    assert forall|a: int, b: int|
                        0 <= a < b < self.webclient_workers@.len() implies self.webclient_workers@[a]@
                        != self.webclient_workers@[b]@ by {
                        if b == self.webclient_workers@.len() - 1 {
                            assert(id_listed(pre, pre[a]@));
                        }
                    }
                }
            }
            false
        }
    }

    /// Deregisters a charge station and clears its operator pairing.
    /// After this the station is no longer listed.
    pub fn disconnect_charger(&mut self, serial_id: &String)
        requires
            old(self).wf(),
        ensures
            final(self).wf(),
            !final(self).station_listed(serial_id@),
            forall|x: Seq<char>|
                x != serial_id@ ==> #[trigger] final(self).station_listed(x) == old(
                    self,
                ).station_listed(x),
            forall|c: Seq<char>|
                #[trigger] final(self).pair_of(c) == (if c == serial_id@ {
                    None::<Seq<char>>
                } else {
                    old(self).pair_of(c)
                }),
            final(self).webclient_workers == old(self).webclient_workers,
            final(self).awaiting_call_result == old(self).awaiting_call_result,
    {
        remove_id(&mut self.websocket_workers, serial_id);
        assoc_remove_key(&mut self.chargers_webclients_pair, serial_id);
    }

    /// Deregisters an operator browser, sweeps every `pending` entry it
    /// owns and every pairing that points at it. After this no pending
    /// entry references the operator.
    pub fn disconnect_web_client(&mut self, serial_id: &String)
        requires
            old(self).wf(),
        ensures
            final(self).wf(),
            !final(self).operator_listed(serial_id@),
            forall|x: Seq<char>|
                x != serial_id@ ==> #[trigger] final(self).operator_listed(x) == old(
                    self,
                ).operator_listed(x),
            forall|m: Seq<char>|
                #[trigger] final(self).pending(m) == assoc_get_swept(
                    old(self).awaiting_call_result@,
                    m,
                    serial_id@,
                ),
            forall|k: int|
                0 <= k < final(self).pending_entries().len() ==> final(self).pending_entries()[k].1@
                    != serial_id@,
            forall|c: Seq<char>|
                #[trigger] final(self).pair_of(c) == assoc_get_swept(
                    old(self).chargers_webclients_pair@,
                    c,
                    serial_id@,
                ),
            final(self).websocket_workers == old(self).websocket_workers,
    {
        remove_id(&mut self.webclient_workers, serial_id);
        assoc_remove_value(&mut self.awaiting_call_result, serial_id);
        assoc_remove_value(&mut self.chargers_webclients_pair, serial_id);
    }

    /// A snapshot of the ids of the connected charge stations.
    pub fn get_chargers(&self) -> (r: Vec<String>)
        ensures
            r@.len() == self.websocket_workers@.len(),
            forall|i: int| 0 <= i < r@.len() ==> r@[i]@ == self.websocket_workers@[i]@,
            forall|x: Seq<char>| #[trigger] id_listed(r@, x) == self.station_listed(x),
    {
        let mut chargers: Vec<String> = Vec::new();
        let mut i: usize = 0;
        while i < self.websocket_workers.len()
            invariant
                0 <= i <= self.websocket_workers@.len(),
                chargers@.len() == i,
                forall|k: int| 0 <= k < i ==> chargers@[k]@ == self.websocket_workers@[k]@,
            decreases self.websocket_workers@.len() - i,
        {
            chargers.push(self.websocket_workers[i].clone());
            i += 1;
        }
        proof {
            assert forall|x: Seq<char>| #[trigger] id_listed(chargers@, x) == id_listed(
                self.websocket_workers@,
                x,
            ) by {
                if id_listed(chargers@, x) {
                    let k = choose|k: int| 0 <= k < chargers@.len() && chargers@[k]@ == x;
                    assert(self.websocket_workers@[k]@ == x);
                }
                if id_listed(self.websocket_workers@, x) {
                    let k = choose|k: int|
                        0 <= k < self.websocket_workers@.len() && self.websocket_workers@[k]@ == x;
                    assert(chargers@[k]@ == x);
                }
            }
        }
        chargers
    }
}

impl OcppServer {
    /// Routes a station reply. The raw MessageId token is stripped of
    /// its quotes for the `pending` lookup, since correlations are
    /// recorded under the bare id. A CallResult or CallError whose
    /// MessageId is awaited is delivered to exactly the operator that
    /// issued the Call, and its `pending` entry is removed; one whose
    /// MessageId is unknown is dropped and changes nothing. A
    /// station-originated Call is not forwarded.
    pub fn station_to_operator(&mut self, charger_id: &String, reply: &OcppMessage) -> (r: Option<
        (String, String),
    >)
        requires
            old(self).wf(),
        ensures
            final(self).wf(),
            final(self).websocket_workers == old(self).websocket_workers,
            final(self).webclient_workers == old(self).webclient_workers,
            final(self).chargers_webclients_pair == old(self).chargers_webclients_pair,
            match reply@ {
                MessageView::Call(_) => r is None && final(self).awaiting_call_result == old(
                    self,
                ).awaiting_call_result,
                MessageView::CallResult(c) => match old(self).pending(dequoted(c.unique_id)) {
                    Some(client) => r matches Some(p) && p.0@ == client && p.1@ == "Call result from "@
                        + charger_id@ + ": \r\n"@ + wrap_call_result_spec(c.unique_id, c.payload)
                        && (forall|m: Seq<char>|
                        #[trigger] final(self).pending(m) == (if m == dequoted(c.unique_id) {
                            None::<Seq<char>>
                        } else {
                            old(self).pending(m)
                        })),
                    None => r is None && final(self).awaiting_call_result == old(
                        self,
                    ).awaiting_call_result,
                },
                MessageView::CallError(c) => match old(self).pending(dequoted(c.unique_id)) {
                    Some(client) => r matches Some(p) && p.0@ == client && p.1@ == "Call error from "@
                        + charger_id@ + ":\r\n"@ + encode_call_error(
                        quoted(c.unique_id),
                        quoted(c.error_code),
                        quoted(c.error_description),
                        c.error_details,
                    ) && (forall|m: Seq<char>|
                        #[trigger] final(self).pending(m) == (if m == dequoted(c.unique_id) {
                            None::<Seq<char>>
                        } else {
                            old(self).pending(m)
                        })),
                    None => r is None && final(self).awaiting_call_result == old(
                        self,
                    ).awaiting_call_result,
                },
            },
    {
        proof {
            reveal_strlit("Call result from ");
            reveal_strlit(": \r\n");
            reveal_strlit("Call error from ");
            reveal_strlit(":\r\n");
            reveal_strlit(":\r\n[4, ");
            reveal_strlit(", ");
            reveal_strlit("]");
        }
        match reply {
            OcppMessage::Call(_) => None,
            OcppMessage::CallResult(cr) => {
                let key = remove_quotes(cr.unique_id.as_str());
                let client = match assoc_lookup(&self.awaiting_call_result, &key) {
                    Some(c) => c.clone(),
                    None => {
                        return None;
                    },
                };
                let mut text = String::from_str("Call result from ");
                text.append(charger_id.as_str());
                text.append(": \r\n");
                let wire = wrap_call_result(&cr.unique_id, cr.payload.clone());
                text.append(wire.as_str());
                assoc_remove_key(&mut self.awaiting_call_result, &key);
                Some((client, text))
            },
            OcppMessage::CallError(ce) => {
                let key = remove_quotes(ce.unique_id.as_str());
                let client = match assoc_lookup(&self.awaiting_call_result, &key) {
                    Some(c) => c.clone(),
                    None => {
                        return None;
                    },
                };
                let mut text = String::from_str("Call error from ");
                text.append(charger_id.as_str());
                text.append(":\r\n[4, ");
                append_quoted(&mut text, &ce.unique_id);
                text.append(", ");
                append_quoted(&mut text, &ce.error_code);
                text.append(", ");
                append_quoted(&mut text, &ce.error_description);
                text.append(", ");
                text.append(ce.error_details.as_str());
                text.append("]");
                proof {
                    assert(":\r\n[4, "@ =~= ":\r\n"@ + seq!['[', '4', ',', ' ']);
                    assert(", "@ =~= seq![',', ' ']);
                    assert("]"@ =~= seq![']']);
                    assert(text@ =~= "Call error from "@ + charger_id@ + ":\r\n"@
                        + encode_call_error(
                        quoted(ce.unique_id@),
                        quoted(ce.error_code@),
                        quoted(ce.error_description@),
                        ce.error_details@,
                    ));
                }
                assoc_remove_key(&mut self.awaiting_call_result, &key);
                Some((client, text))
            },
        }
    }
}

impl OcppServer {
    /// Holds an operator command against the schema of its action.
    pub fn message_from_web_browser_is_valid(msg: &MessageFromWebBrowser) -> (r: bool)
        ensures
            r == operator_payload_ok(msg.selected@, msg.payload),
    {
        check_operator_payload(msg.selected.as_str(), &msg.payload)
    }

    /// Routes one operator command under a caller-chosen fresh
    /// MessageId. A command whose payload fails its schema draws a
    /// notice and changes nothing. A Call command (message kind 2)
    /// yields the wire frame, records the correlation under
    /// `new_message_id`, pairs the charger with the operator if it was
    /// unpaired, and echoes the frame to the operator. A default-reply
    /// command (message kind 3) for one of the five overridable actions
    /// yields the typed envelope and a confirmation, changing no
    /// routing state.
    pub fn route_web_browser_message(
        &mut self,
        msg: &MessageFromWebBrowser,
        new_message_id: String,
    ) -> (r: WebCommandOutcome)
        requires
            old(self).wf(),
        ensures
            final(self).wf(),
            final(self).websocket_workers == old(self).websocket_workers,
            final(self).webclient_workers == old(self).webclient_workers,
            !operator_payload_ok(msg.selected@, msg.payload) ==> (r matches
                WebCommandOutcome::Invalid { notice } && notice@ == "improper payload:\r\n"@
                + json_text(msg.payload) && *final(self) == *old(self)),
            (operator_payload_ok(msg.selected@, msg.payload) && msg.message_id == 2) ==> (r matches
                WebCommandOutcome::CallIssued { charger_listed, wire, echo } && charger_listed == old(
                self,
            ).station_listed(msg.charger@) && wire@ == wrap_call_spec(
                new_message_id@,
                msg.selected@,
                json_text(msg.payload),
            ) && echo@ == "call sent to charger "@ + msg.charger@ + ":\r\n"@ + wrap_call_spec(
                new_message_id@,
                msg.selected@,
                json_text(msg.payload),
            ) && (forall|m: Seq<char>|
                #[trigger] final(self).pending(m) == (if m == new_message_id@ {
                    Some(msg.client_id@)
                } else {
                    old(self).pending(m)
                })) && (forall|c: Seq<char>|
                #[trigger] final(self).pair_of(c) == (if c == msg.charger@ && old(self).pair_of(c)
                    is None {
                    Some(msg.client_id@)
                } else {
                    old(self).pair_of(c)
                }))),
            (operator_payload_ok(msg.selected@, msg.payload) && msg.message_id == 3) ==> *final(self)
                == *old(self),
            (operator_payload_ok(msg.selected@, msg.payload) && msg.message_id == 3) ==> (if msg.selected@
                == "Authorize"@ {
                (valid_authorize_resp(msg.payload) ==> (r matches
                WebCommandOutcome::SetDefault { charger_listed, envelope, confirmation }
                    && charger_listed == old(self).station_listed(msg.charger@)
                    && envelope.message is None && envelope.data_transfer is None
                    && envelope.sign_certificate is None && envelope.start_transaction is None
                    && envelope.stop_transaction is None && (envelope.authorize matches Some(a)
                    && authorize_response_matches_json(a, msg.payload)) && confirmation@
                    == "Setting default Authorize response for charger "@ + msg.charger@ + ":\r\n "@
                    + json_text(msg.payload))) && (!valid_authorize_resp(msg.payload) ==> (r
                    matches WebCommandOutcome::Invalid { notice } && notice@
                    == "improper payload:\r\n"@ + json_text(msg.payload)))
            } else if msg.selected@ == "DataTransfer"@ {
                (valid_data_transfer_resp(msg.payload) ==> (r matches
                WebCommandOutcome::SetDefault { charger_listed, envelope, confirmation }
                    && charger_listed == old(self).station_listed(msg.charger@)
                    && envelope.message is None && envelope.authorize is None
                    && envelope.sign_certificate is None && envelope.start_transaction is None
                    && envelope.stop_transaction is None && (envelope.data_transfer matches Some(a)
                    && data_transfer_response_matches_json(a, msg.payload)) && confirmation@
                    == "Setting default DataTransfer response for charger "@ + msg.charger@
                    + ":\r\n "@ + json_text(msg.payload))) && (!valid_data_transfer_resp(
                    msg.payload,
                ) ==> (r matches WebCommandOutcome::Invalid { notice } && notice@
                    == "improper payload:\r\n"@ + json_text(msg.payload)))
            } else if msg.selected@ == "SignCertificate"@ {
                (valid_sign_certificate_resp(msg.payload) ==> (r matches
                WebCommandOutcome::SetDefault { charger_listed, envelope, confirmation }
                    && charger_listed == old(self).station_listed(msg.charger@)
                    && envelope.message is None && envelope.authorize is None
                    && envelope.data_transfer is None && envelope.start_transaction is None
                    && envelope.stop_transaction is None && (envelope.sign_certificate matches Some(
                    a,
                ) && sign_certificate_response_matches_json(a, msg.payload)) && confirmation@
                    == "Setting default SignCertificate response for charger "@ + msg.charger@
                    + ":\r\n "@ + json_text(msg.payload))) && (!valid_sign_certificate_resp(
                    msg.payload,
                ) ==> (r matches WebCommandOutcome::Invalid { notice } && notice@
                    == "improper payload:\r\n"@ + json_text(msg.payload)))
            } else if msg.selected@ == "StartTransaction"@ {
                ((valid_start_transaction_resp(msg.payload) && (json_get(
                    msg.payload,
                    "transactionId"@,
                ) matches Some(v) && v is Int)) ==> (r
                    matches WebCommandOutcome::SetDefault { charger_listed, envelope, confirmation }
                    && charger_listed == old(self).station_listed(msg.charger@)
                    && envelope.message is None && envelope.authorize is None
                    && envelope.data_transfer is None && envelope.sign_certificate is None
                    && envelope.stop_transaction is None && (envelope.start_transaction matches Some(
                    a,
                ) && start_transaction_response_matches_json(a, msg.payload)) && confirmation@
                    == "Setting default StartTransaction response for charger "@ + msg.charger@
                    + ":\r\n "@ + json_text(msg.payload))) && (!(valid_start_transaction_resp(
                    msg.payload,
                ) && (json_get(msg.payload, "transactionId"@) matches Some(v) && v is Int)) ==> (r
                    matches WebCommandOutcome::Invalid { notice }
                    && notice@ == "improper payload:\r\n"@ + json_text(msg.payload)))
            } else if msg.selected@ == "StopTransaction"@ {
                (valid_stop_transaction_resp(msg.payload) ==> (r matches
                WebCommandOutcome::SetDefault { charger_listed, envelope, confirmation }
                    && charger_listed == old(self).station_listed(msg.charger@)
                    && envelope.message is None && envelope.authorize is None
                    && envelope.data_transfer is None && envelope.sign_certificate is None
                    && envelope.start_transaction is None && (envelope.stop_transaction matches Some(
                    a,
                ) && stop_transaction_response_matches_json(a, msg.payload)) && confirmation@
                    == "Setting default StopTransaction response for charger "@ + msg.charger@
                    + ":\r\n "@ + json_text(msg.payload))) && (!valid_stop_transaction_resp(
                    msg.payload,
                ) ==> (r matches WebCommandOutcome::Invalid { notice } && notice@
                    == "improper payload:\r\n"@ + json_text(msg.payload)))
            } else {
                r is Ignored
            }),
            (operator_payload_ok(msg.selected@, msg.payload) && msg.message_id != 2
                && msg.message_id != 3) ==> (r is Ignored && *final(self) == *old(self)),
    {
        proof {
            reveal_strlit("improper payload:\r\n");
            reveal_strlit("call sent to charger ");
            reveal_strlit(":\r\n");
        }
        if !check_operator_payload(msg.selected.as_str(), &msg.payload) {
            let mut notice = String::from_str("improper payload:\r\n");
            let ptext = json_to_string(&msg.payload);
            notice.append(ptext.as_str());
            return WebCommandOutcome::Invalid { notice };
        }
        if msg.message_id == 2 {
            let charger_listed = contains_id(&self.websocket_workers, &msg.charger);
            let ptext = json_to_string(&msg.payload);
            let wire = wrap_call(&new_message_id, &msg.selected, &ptext);
            let mut echo = String::from_str("call sent to charger ");
            echo.append(msg.charger.as_str());
            echo.append(":\r\n");
            echo.append(wire.as_str());
            assoc_insert(&mut self.awaiting_call_result, new_message_id, msg.client_id.clone());
            assoc_insert_if_absent(
                &mut self.chargers_webclients_pair,
                msg.charger.clone(),
                msg.client_id.clone(),
            );
            return WebCommandOutcome::CallIssued { charger_listed, wire, echo };
        }
        if msg.message_id == 3 {
            let sel = msg.selected.as_str();
            let charger_listed = contains_id(&self.websocket_workers, &msg.charger);
            if str_eq(sel, "Authorize") {
                match json_to_authorize_response(&msg.payload) {
                    Some(a) => {
                        let mut envelope = MessageToChargeStation::default();
                        envelope.authorize = Some(a);
                        let confirmation = Self::confirmation_text(
                            "Setting default Authorize response for charger ",
                            &msg.charger,
                            &msg.payload,
                        );
                        return WebCommandOutcome::SetDefault {
                            charger_listed,
                            envelope,
                            confirmation,
                        };
                    },
                    None => {
                        let mut notice = String::from_str("improper payload:\r\n");
                        let ptext = json_to_string(&msg.payload);
                        notice.append(ptext.as_str());
                        return WebCommandOutcome::Invalid { notice };
                    },
                }
            } else if str_eq(sel, "DataTransfer") {
                match json_to_data_transfer_response(&msg.payload) {
                    Some(a) => {
                        let mut envelope = MessageToChargeStation::default();
                        envelope.data_transfer = Some(a);
                        let confirmation = Self::confirmation_text(
                            "Setting default DataTransfer response for charger ",
                            &msg.charger,
                            &msg.payload,
                        );
                        return WebCommandOutcome::SetDefault {
                            charger_listed,
                            envelope,
                            confirmation,
                        };
                    },
                    None => {
                        let mut notice = String::from_str("improper payload:\r\n");
                        let ptext = json_to_string(&msg.payload);
                        notice.append(ptext.as_str());
                        return WebCommandOutcome::Invalid { notice };
                    },
                }
            } else if str_eq(sel, "SignCertificate") {
                match json_to_sign_certificate_response(&msg.payload) {
                    Some(a) => {
                        let mut envelope = MessageToChargeStation::default();
                        envelope.sign_certificate = Some(a);
                        let confirmation = Self::confirmation_text(
                            "Setting default SignCertificate response for charger ",
                            &msg.charger,
                            &msg.payload,
                        );
                        return WebCommandOutcome::SetDefault {
                            charger_listed,
                            envelope,
                            confirmation,
                        };
                    },
                    None => {
                        let mut notice = String::from_str("improper payload:\r\n");
                        let ptext = json_to_string(&msg.payload);
                        notice.append(ptext.as_str());
                        return WebCommandOutcome::Invalid { notice };
                    },
                }
            } else if str_eq(sel, "StartTransaction") {
                match json_to_start_transaction_response(&msg.payload) {
                    Some(a) => {
                        let mut envelope = MessageToChargeStation::default();
                        envelope.start_transaction = Some(a);
                        let confirmation = Self::confirmation_text(
                            "Setting default StartTransaction response for charger ",
                            &msg.charger,
                            &msg.payload,
                        );
                        return WebCommandOutcome::SetDefault {
                            charger_listed,
                            envelope,
                            confirmation,
                        };
                    },
                    None => {
                        let mut notice = String::from_str("improper payload:\r\n");
                        let ptext = json_to_string(&msg.payload);
                        notice.append(ptext.as_str());
                        return WebCommandOutcome::Invalid { notice };
                    },
                }
            } else if str_eq(sel, "StopTransaction") {
                match json_to_stop_transaction_response(&msg.payload) {
                    Some(a) => {
                        let mut envelope = MessageToChargeStation::default();
                        envelope.stop_transaction = Some(a);
                        let confirmation = Self::confirmation_text(
                            "Setting default StopTransaction response for charger ",
                            &msg.charger,
                            &msg.payload,
                        );
                        return WebCommandOutcome::SetDefault {
                            charger_listed,
                            envelope,
                            confirmation,
                        };
                    },
                    None => {
                        let mut notice = String::from_str("improper payload:\r\n");
                        let ptext = json_to_string(&msg.payload);
                        notice.append(ptext.as_str());
                        return WebCommandOutcome::Invalid { notice };
                    },
                }
            } else {
                return WebCommandOutcome::Ignored;
            }
        }
        WebCommandOutcome::Ignored
    }

    /// Builds `{prefix}{charger}:\r\n {payload text}`.
    fn confirmation_text(prefix: &str, charger: &String, payload: &Json) -> (r: String)
        ensures
            r@ == prefix@ + charger@ + ":\r\n "@ + json_text(*payload),
    {
        let mut out = String::from_str(prefix);
        out.append(charger.as_str());
        out.append(":\r\n ");
        let ptext = json_to_string(payload);
        out.append(ptext.as_str());
        out
    }
}

/// Relies on uuid::Uuid::new_v4 and Uuid::to_string: a freshly drawn
/// random identifier in hyphenated text form. Nothing is promised of
/// the value; the routing contract below holds for every identifier.
#[verifier::external_body]
fn new_uuid() -> (r: String) {
    uuid::Uuid::new_v4().to_string()
}

impl OcppServer {
    /// Routes one operator command under a freshly generated
    /// MessageId. The routing contract of `route_web_browser_message`
    /// holds for whatever identifier was drawn: in particular a Call
    /// command records exactly one new `pending` entry, owned by the
    /// issuing operator.
    pub fn handle_message_from_web_browser(&mut self, msg: &MessageFromWebBrowser) -> (r:
        WebCommandOutcome)
        requires
            old(self).wf(),
        ensures
            final(self).wf(),
            final(self).websocket_workers == old(self).websocket_workers,
            final(self).webclient_workers == old(self).webclient_workers,
            !operator_payload_ok(msg.selected@, msg.payload) ==> (r matches
                WebCommandOutcome::Invalid { notice } && notice@ == "improper payload:\r\n"@
                + json_text(msg.payload) && *final(self) == *old(self)),
            (operator_payload_ok(msg.selected@, msg.payload) && msg.message_id == 2) ==> (r matches
                WebCommandOutcome::CallIssued { charger_listed, wire, echo } && charger_listed == old(
                self,
            ).station_listed(msg.charger@) && (exists|mid: Seq<char>|
                wire@ == #[trigger] wrap_call_spec(mid, msg.selected@, json_text(msg.payload))
                    && echo@
                    == "call sent to charger "@ + msg.charger@ + ":\r\n"@ + wrap_call_spec(
                    mid,
                    msg.selected@,
                    json_text(msg.payload),
                ) && (forall|m: Seq<char>|
                    #[trigger] final(self).pending(m) == (if m == mid {
                        Some(msg.client_id@)
                    } else {
                        old(self).pending(m)
                    })))),
            (operator_payload_ok(msg.selected@, msg.payload) && msg.message_id == 3)
                ==> *final(self) == *old(self),
            (operator_payload_ok(msg.selected@, msg.payload) && msg.message_id != 2
                && msg.message_id != 3) ==> (r is Ignored && *final(self) == *old(self)),
    {
        let mid = new_uuid();
        let ghost midv = mid@;
        let r = self.route_web_browser_message(msg, mid);
        proof {
            if operator_payload_ok(msg.selected@, msg.payload) && msg.message_id == 2 {
                assert(exists|m: Seq<char>|
                    (match r {
                        WebCommandOutcome::CallIssued { charger_listed, wire, echo } => wire@
                            == #[trigger] wrap_call_spec(m, msg.selected@, json_text(msg.payload)),
                        _ => false,
                    })) by {
                    assert(match r {
                        WebCommandOutcome::CallIssued { charger_listed, wire, echo } => wire@
                            == wrap_call_spec(midv, msg.selected@, json_text(msg.payload)),
                        _ => false,
                    });
                }
            }
        }
        r
    }
}

} // verus!
