//! One measurement cycle as a state machine.
//!
//! The machine holds every decision of the pipeline: build the document from
//! the reading, branch on dry-run, classify the publish outcome.  The
//! unverified shell performs the outside work between steps — reading the
//! sensor, probing the environment, loading the credential, calling the
//! remote store — and reports each outcome back as an event.  In dry-run the
//! machine never emits a publish action, so no credential is ever resolved
//! and no network call is ever made; a failed measurement aborts the cycle
//! before any document exists.

use vstd::prelude::*;
use vstd::string::StringExecFns;
use crate::digits::milli_chars;
use crate::document::FieldValue;
use crate::document::MeasurementDoc;
use crate::document::pa_to_hpa_milli;
use crate::instant::Instant;
use crate::instant::datetime_chars;
use crate::instant::doc_id_chars;
use crate::instant::format_datetime;
use crate::instant::format_doc_id;
use crate::publish::PublishError;

verus! {

/// Raw physical sensor output for one measurement cycle, in thousandths of
/// °C, %RH and Pa.
#[derive(Clone, Copy, PartialEq, Eq, Structural, Debug)]
pub struct Reading {
    pub temperature: i64,
    pub humidity: i64,
    pub pressure: i64,
}

impl Reading {
    /// Quantities the document builder can store and render.
    pub open spec fn wf(self) -> bool {
        &&& self.temperature > i64::MIN
        &&& self.humidity > i64::MIN
        &&& self.pressure > i64::MIN
    }
}

/// Where the cycle stands.
#[derive(Clone, Copy, PartialEq, Eq, Structural, Debug)]
pub enum Phase {
    /// No measurement has been taken yet.
    Start,
    /// A publish action is outstanding; its outcome has not come back.
    AwaitingPublish,
    /// The cycle is over; no further action will be emitted.
    Complete,
}

/// An outcome the shell reports back into the machine.
#[derive(PartialEq, Eq, Debug)]
pub enum Event {
    /// The sensor produced a reading at the captured instant, or failed.
    Measured(Option<(Reading, Instant)>),
    /// The publish attempt finished: `None` on success, the classified
    /// failure otherwise.
    PublishFinished(Option<PublishError>),
}

/// What the machine asks the shell to do next.
#[derive(PartialEq, Eq, Debug)]
pub enum Action {
    /// Print the braced inline rendering; the cycle is over (dry run).
    PrintDocument(String),
    /// Resolve the credential, authenticate, and create the document under
    /// the given identifier, then report back with `PublishFinished`.
    Publish(MeasurementDoc, String),
    /// A fatal pre-publish condition: abort with the message.  No document
    /// was built and nothing was sent.
    AbortMeasurement(String),
    /// Print the one diagnostic line for a publish failure and end normally.
    ReportFailure(String),
    /// The cycle ended with nothing left to do.
    Finish,
}

/// The document that one reading and one instant build: its datetime is the
/// instant's rendering, its quantities are the reading's with the pressure
/// divided by 100.
pub open spec fn built_doc(d: MeasurementDoc, r: Reading, i: Instant) -> bool {
    &&& d.wf()
    &&& d.datetime.string_chars() == datetime_chars(i)
    &&& d.temperature == FieldValue::DoubleValue(r.temperature)
    &&& d.humidity == FieldValue::DoubleValue(r.humidity)
    &&& d.pressure == FieldValue::DoubleValue(pa_to_hpa_milli(r.pressure as int) as i64)
}

/// The braced console line shown for a reading taken at an instant.
pub open spec fn dry_line_chars(r: Reading, i: Instant) -> Seq<char> {
    seq!['{'] + "\"datetime\": \""@ + datetime_chars(i) + "\", \"temperature\": "@ + milli_chars(
        r.temperature as int,
    ) + ", \"humidity\": "@ + milli_chars(r.humidity as int) + ", \"pressure\": "@ + milli_chars(
        pa_to_hpa_milli(r.pressure as int),
    ) + seq!['}']
}

/// One measurement cycle.
pub struct Session {
    pub dry_run: bool,
    pub phase: Phase,
}

impl Session {
    /// Begin a cycle; in dry-run the cycle will only ever display.
    pub fn start(dry_run: bool) -> (s: Session)
        ensures
            s.dry_run == dry_run,
            s.phase == Phase::Start,
    {
        Session { dry_run, phase: Phase::Start }
    }

    /// The event the protocol admits in the current phase.
    pub open spec fn accepts(self, e: Event) -> bool {
        match e {
            Event::Measured(m) => self.phase == Phase::Start && (m matches Some(p) ==> p.0.wf()
                && p.1.valid()),
            Event::PublishFinished(_) => self.phase == Phase::AwaitingPublish,
        }
    }

    /// Take the next decision of the cycle.
    ///
    /// A failed measurement aborts before any document is built.  In
    /// dry-run the built document is rendered and the cycle ends — no
    /// publish action is ever emitted, so credential resolution and network
    /// work never happen.  Otherwise the document and its identifier, both
    /// derived from the one captured instant, go out for publishing; the
    /// outcome comes back as one more event, and a failure is reported as
    /// exactly one diagnostic line while the cycle still ends normally.
    pub fn step(&mut self, e: Event) -> (a: Action)
        requires
            old(self).accepts(e),
        ensures
            final(self).dry_run == old(self).dry_run,
            old(self).dry_run ==> final(self).phase != Phase::AwaitingPublish && !(a matches
                Action::Publish(_, _)),
            e matches Event::Measured(None) ==> a matches Action::AbortMeasurement(m) && m@
                == "measurement failed"@ && final(self).phase == Phase::Complete,
            e matches Event::Measured(Some(p)) ==> (if old(self).dry_run {
                a matches Action::PrintDocument(line) && line@ == dry_line_chars(p.0, p.1)
                    && final(self).phase == Phase::Complete
            } else {
                a matches Action::Publish(doc, id) && built_doc(doc, p.0, p.1) && id@
                    == doc_id_chars(p.1) && final(self).phase == Phase::AwaitingPublish
            }),
            e matches Event::PublishFinished(out) ==> final(self).phase == Phase::Complete && (
            match out {
                Some(err) => a matches Action::ReportFailure(line) && line@
                    == err.diagnostic_chars(),
                None => a == Action::Finish,
            }),
    {
        match e {
            Event::Measured(m) => {
                match m {
                    None => {
                        self.phase = Phase::Complete;
                        Action::AbortMeasurement("measurement failed".to_owned())
                    },
                    Some((r, i)) => {
                        let dt = format_datetime(&i);
                        let doc = MeasurementDoc::new(dt, r.temperature, r.humidity, r.pressure);
                        if self.dry_run {
                            self.phase = Phase::Complete;
                            let mut line = "{".to_owned();
                            line.append(doc.render_inline().as_str());
                            line.append("}");
                            proof {
                                reveal_strlit("{");
                                reveal_strlit("}");
                                assert(line@ =~= dry_line_chars(r, i));
                            }
                            Action::PrintDocument(line)
                        } else {
                            self.phase = Phase::AwaitingPublish;
                            let id = format_doc_id(&i);
                            Action::Publish(doc, id)
                        }
                    },
                }
            },
            Event::PublishFinished(out) => {
                self.phase = Phase::Complete;
                match out {
                    Some(err) => Action::ReportFailure(err.diagnostic()),
                    None => Action::Finish,
                }
            },
        }
    }
}

} // verus!
