use vstd::prelude::*;

use crate::server::{contains_id, id_listed, ids_unique};

verus! {

/// One event row of the log store: the station it belongs to (an index
/// into the stations list), the instant it was written, and the text.
pub struct LogEvent {
    pub charger: usize,
    pub timestamp_millis: u64,
    pub timestamp_text: String,
    pub level: String,
    pub message: String,
}

/// The append-only event log: a stations relation with unique names,
/// and event rows ordered by the instant they were written.
pub struct LogStore {
    pub chargers: Vec<String>,
    pub events: Vec<LogEvent>,
}

pub open spec fn events_sorted(events: Seq<LogEvent>) -> bool {
    forall|a: int, b: int|
        0 <= a < b < events.len() ==> events[a].timestamp_millis <= events[b].timestamp_millis
}

/// The line printed for one event in an extracted log file.
pub open spec fn line_text(e: LogEvent) -> Seq<char> {
    seq!['['] + e.timestamp_text@ + seq![']', ' '] + e.message@
}

/// The lines of an extraction: the events of the named station whose
/// instant lies in `[a, b]`, in stored order.
pub open spec fn extract_lines(
    events: Seq<LogEvent>,
    chargers: Seq<String>,
    name: Seq<char>,
    a: int,
    b: int,
) -> Seq<Seq<char>>
    decreases events.len(),
{
    if events.len() == 0 {
        Seq::<Seq<char>>::empty()
    } else {
        let rest = extract_lines(events.drop_last(), chargers, name, a, b);
        let e = events.last();
        if e.charger < chargers.len() && chargers[e.charger as int]@ == name && a
            <= e.timestamp_millis <= b {
            rest.push(line_text(e))
        } else {
            rest
        }
    }
}

/// What a retention sweep with the given cutoff keeps: the events at
/// or after the cutoff, in stored order.
pub open spec fn retained_events(events: Seq<LogEvent>, cutoff: int) -> Seq<LogEvent>
    decreases events.len(),
{
    if events.len() == 0 {
        Seq::<LogEvent>::empty()
    } else {
        let rest = retained_events(events.drop_last(), cutoff);
        if events.last().timestamp_millis >= cutoff {
            rest.push(events.last())
        } else {
            rest
        }
    }
}

fn clone_event(e: &LogEvent) -> (r: LogEvent)
    ensures
        r == *e,
{
    LogEvent {
        charger: e.charger,
        timestamp_millis: e.timestamp_millis,
        timestamp_text: e.timestamp_text.clone(),
        level: e.level.clone(),
        message: e.message.clone(),
    }
}

impl LogStore {
    /// Station names unique, event instants nondecreasing, every event
    /// pointing into the stations relation.
    pub open spec fn wf(self) -> bool {
        &&& ids_unique(self.chargers@)
        &&& events_sorted(self.events@)
        &&& forall|k: int|
            0 <= k < self.events@.len() ==> (#[trigger] self.events@[k]).charger
                < self.chargers@.len()
    }

    pub fn new() -> (r: LogStore)
        ensures
            r.wf(),
            r.chargers@.len() == 0,
            r.events@.len() == 0,
    {
        LogStore { chargers: Vec::new(), events: Vec::new() }
    }

    /// Inserts the station if it is absent. The operation is
    /// idempotent: a second insert of the same name changes nothing,
    /// so the relation never holds two rows with one name.
    pub fn add_charger(&mut self, charger_name: &String)
        requires
            old(self).wf(),
        ensures
            final(self).wf(),
            final(self).events == old(self).events,
            id_listed(final(self).chargers@, charger_name@),
            id_listed(old(self).chargers@, charger_name@) ==> final(self).chargers == old(
                self,
            ).chargers,
            !id_listed(old(self).chargers@, charger_name@) ==> final(self).chargers@ == old(
                self,
            ).chargers@.push(*charger_name),
            forall|x: Seq<char>|
                x != charger_name@ ==> #[trigger] id_listed(final(self).chargers@, x) == id_listed(
                    old(self).chargers@,
                    x,
                ),
    {
        let ghost namev = charger_name@;
        if contains_id(&self.chargers, charger_name) {
        } else {
            let ghost pre = self.chargers@;
            self.chargers.push(charger_name.clone());
            proof {
                assert(self.chargers@[pre.len() as int]@ == namev);
                assert forall|x: Seq<char>| x != namev implies #[trigger] id_listed(
                    self.chargers@,
                    x,
                ) == id_listed(pre, x) by {
                    if id_listed(self.chargers@, x) {
                        let k = choose|k: int|
                            0 <= k < self.chargers@.len() && self.chargers@[k]@ == x;
                        assert(k < pre.len());
                        assert(pre[k]@ == x);
                    }
                    if id_listed(pre, x) {
                        let k = choose|k: int| 0 <= k < pre.len() && pre[k]@ == x;
                        assert(self.chargers@[k]@ == x);
                    }
                }
                assert(ids_unique(self.chargers@)) by {
                    assert forall|a: int, b: int|
                        0 <= a < b < self.chargers@.len() implies self.chargers@[a]@
                        != self.chargers@[b]@ by {
                        if b == self.chargers@.len() - 1 {
                            assert(id_listed(pre, pre[a]@));
                        }
                    }
                }
            }
        }
    }

    /// Appends one event row for the named station, stamped with the
    /// given instant; the level defaults to `info`. The append is
    /// refused (and the store unchanged) when the station is not in
    /// the relation. Rows are stamped with the clock at append time,
    /// so a caller hands in instants that do not run backwards; the
    /// store then keeps its rows in stamp order, which is the order an
    /// extraction must present.
    #[verifier::loop_isolation(false)]
    pub fn add_log(
        &mut self,
        charger_name: &String,
        log_level_option: Option<String>,
        message: String,
        timestamp_millis: u64,
        timestamp_text: String,
    ) -> (r: bool)
        requires
            old(self).wf(),
            old(self).events@.len() > 0 ==> old(self).events@.last().timestamp_millis
                <= timestamp_millis,
        ensures
            final(self).wf(),
            final(self).chargers@ == old(self).chargers@,
            r == id_listed(old(self).chargers@, charger_name@),
            !r ==> final(self).events@ == old(self).events@,
            r ==> final(self).events@.len() == old(self).events@.len() + 1 && final(self)
                .events@.subrange(0, old(self).events@.len() as int) == old(self).events@ && (final(self)
                .events@.last() == LogEvent {
                charger: final(self).events@.last().charger,
                timestamp_millis: timestamp_millis,
                timestamp_text: timestamp_text,
                level: final(self).events@.last().level,
                message: message,
            }) && final(self).chargers@[final(self).events@.last().charger as int]@
                == charger_name@ && final(self).events@.last().level@ == (match log_level_option {
                Some(l) => l@,
                None => "info"@,
            }),
    {
        let n = self.chargers.len();
        let mut i: usize = 0;
        while i < n
            invariant
                self.chargers@ == old(self).chargers@,
                self.events@ == old(self).events@,
                0 <= i <= n,
                forall|k: int| 0 <= k < i ==> self.chargers@[k]@ != charger_name@,
            decreases n - i,
        {
            if crate::strutil::str_eq(self.chargers[i].as_str(), charger_name.as_str()) {
                let level = match log_level_option {
                    Some(l) => l,
                    None => String::from_str("info"),
                };
                let ghost pre = self.events@;
                self.events.push(
                    LogEvent {
                        charger: i,
                        timestamp_millis,
                        timestamp_text,
                        level,
                        message,
                    },
                );
                proof {
                    assert(self.chargers@[i as int]@ == charger_name@);
                    assert(id_listed(self.chargers@, charger_name@));
                    assert(self.events@.subrange(0, pre.len() as int) =~= pre);
                }
                return true;
            }
            i += 1;
        }
        false
    }

    /// Extracts the log lines of the named station between the two
    /// instants (inclusive), together with the name of the file they
    /// are written to.
    #[verifier::loop_isolation(false)]
    pub fn get_logs(&self, charger_name: &String, start_millis: u64, end_millis: u64) -> (r: (
        String,
        Vec<String>,
    ))
        ensures
            r.0@ == charger_name@ + seq!['_'] + crate::json::nat_text(
                (start_millis / 1000) as int,
            ) + ".log"@,
            r.1.deep_view() == extract_lines(
                self.events@,
                self.chargers@,
                charger_name@,
                start_millis as int,
                end_millis as int,
            ),
    {
        proof {
            reveal_strlit("_");
            reveal_strlit(".log");
            reveal_strlit("[");
            reveal_strlit("] ");
        }
        let mut filename = charger_name.clone();
        filename.append("_");
        assert("_"@ =~= seq!['_']);
        let secs = crate::json::u64_to_string(start_millis / 1000);
        filename.append(secs.as_str());
        filename.append(".log");
        let mut lines: Vec<String> = Vec::new();
        let n = self.events.len();
        let mut i: usize = 0;
        while i < n
            invariant
                0 <= i <= n,
                lines.deep_view() == extract_lines(
                    self.events@.subrange(0, i as int),
                    self.chargers@,
                    charger_name@,
                    start_millis as int,
                    end_millis as int,
                ),
            decreases n - i,
        {
            let ghost pre = lines.deep_view();
            let ghost sub0 = self.events@.subrange(0, i as int);
            let ghost sub1 = self.events@.subrange(0, i + 1 as int);
            let e = &self.events[i];
            let selected = e.charger < self.chargers.len() && crate::strutil::str_eq(
                self.chargers[e.charger].as_str(),
                charger_name.as_str(),
            ) && start_millis <= e.timestamp_millis && e.timestamp_millis <= end_millis;
            if selected {
                let mut line = String::from_str("[");
                assert(line@ =~= seq!['[']);
                line.append(e.timestamp_text.as_str());
                line.append("] ");
                line.append(e.message.as_str());
                proof {
                    assert("] "@ =~= seq![']', ' ']);
                    assert(line@ =~= line_text(self.events@[i as int]));
                }
                lines.push(line);
            }
            proof {
                assert(sub1.drop_last() =~= sub0);
                assert(sub1.last() == self.events@[i as int]);
                if selected {
                    assert(lines.deep_view() =~= pre.push(line_text(self.events@[i as int])));
                    assert(lines.deep_view() == extract_lines(
                        sub1,
                        self.chargers@,
                        charger_name@,
                        start_millis as int,
                        end_millis as int,
                    ));
                } else {
                    assert(lines.deep_view() == extract_lines(
                        sub1,
                        self.chargers@,
                        charger_name@,
                        start_millis as int,
                        end_millis as int,
                    ));
                }
            }
            i += 1;
        }
        proof {
            assert(self.events@.subrange(0, n as int) =~= self.events@);
        }
        (filename, lines)
    }

    /// Deletes every event older than the cutoff instant; the count of
    /// deleted rows is returned.
    #[verifier::loop_isolation(false)]
    pub fn clear_logs(&mut self, cutoff_millis: u64) -> (r: usize)
        requires
            old(self).wf(),
        ensures
            final(self).wf(),
            final(self).chargers == old(self).chargers,
            final(self).events@ == retained_events(old(self).events@, cutoff_millis as int),
            r == old(self).events@.len() - final(self).events@.len(),
    {
        let n = self.events.len();
        let mut kept: Vec<LogEvent> = Vec::new();
        let mut i: usize = 0;
        while i < n
            invariant
                self.events@ == old(self).events@,
                self.events@.len() == n,
                0 <= i <= n,
                kept@ == retained_events(
                    self.events@.subrange(0, i as int),
                    cutoff_millis as int,
                ),
                events_sorted(kept@),
                kept@.len() > 0 ==> i > 0 && kept@.last().timestamp_millis <= self.events@[i
                    - 1].timestamp_millis,
                forall|k: int|
                    0 <= k < kept@.len() ==> (#[trigger] kept@[k]).charger
                        < self.chargers@.len(),
                kept@.len() <= i,
            decreases n - i,
        {
            let ghost pre = kept@;
            let ghost sub0 = self.events@.subrange(0, i as int);
            let ghost sub1 = self.events@.subrange(0, i + 1 as int);
            if self.events[i].timestamp_millis >= cutoff_millis {
                let item = clone_event(&self.events[i]);
                kept.push(item);
            }
            proof {
                assert(sub1.drop_last() =~= sub0);
                assert(sub1.last() == self.events@[i as int]);
            }
            i += 1;
        }
        proof {
            assert(self.events@.subrange(0, n as int) =~= self.events@);
        }
        let removed = n - kept.len();
        self.events = kept;
        removed
    }
}

/// The stations relation never holds two rows with one name: any two
/// rows carrying the same name are the same row. Together with the
/// idempotence of `add_charger` this pins the effect of repeated
/// inserts of one name to exactly one row.
pub proof fn lemma_station_rows_unique(chargers: Seq<String>, name: Seq<char>, i: int, j: int)
    requires
        ids_unique(chargers),
        0 <= i < chargers.len(),
        0 <= j < chargers.len(),
        chargers[i]@ == name,
        chargers[j]@ == name,
    ensures
        i == j,
{
}

} // verus!
