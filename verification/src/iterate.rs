use vstd::prelude::*;
use crate::errors::TwrptarxError;
use crate::stream::TwrpTarFile;

verus! {

/// The value a per-entry consumer returns to steer iteration: proceed to
/// the next entry, stop early with overall success, or abort the whole
/// operation.
#[derive(Clone, Copy, Debug, PartialEq, Eq, Structural)]
pub enum CallbackResult {
    Continue,
    Stop,
    Error,
}

impl From<()> for CallbackResult {
    /// A consumer with nothing to say lets iteration proceed.
    fn from(_unit: ()) -> (r: Self) {
        CallbackResult::Continue
    }
}

impl vstd::std_specs::convert::FromSpecImpl<()> for CallbackResult {
    open spec fn obeys_from_spec() -> bool {
        true
    }

    open spec fn from_spec(t: ()) -> Self {
        CallbackResult::Continue
    }
}

impl Default for CallbackResult {
    /// The default signal lets iteration proceed.
    fn default() -> (r: Self)
        ensures
            r is Continue,
    {
        CallbackResult::Continue
    }
}

/// The not-yet-visited tail of a composed backup container's entry
/// sequence. It borrows the container exclusively; entries are pulled from
/// it strictly forward, one at a time.
#[verifier::external_body]
pub struct EntryStream<'a> {
    inner: tar::Entries<'a, egzreader::EgzReader<Box<dyn std::io::Read>>>,
}

/// One parsed container entry: its header and a bounded sub-reader
/// positioned at the entry's payload. Valid only until the next entry is
/// pulled from the stream.
#[verifier::external_body]
pub struct SourceEntry<'a> {
    pub(crate) inner: tar::Entry<'a, egzreader::EgzReader<Box<dyn std::io::Read>>>,
}

/// Relies on tar::Archive::entries: positions the parser at the first
/// entry; reports a transport failure during initialization as a
/// descriptive error, in which case no entries are attempted.
#[verifier::external_body]
fn start_entries<'a>(file: &'a mut TwrpTarFile) -> (r: Result<EntryStream<'a>, String>) {
    match file.archive.entries() {
        Ok(inner) => Ok(EntryStream { inner }),
        Err(e) => Err(format!("unable to start reading tar archive entries: {}", e)),
    }
}

/// Relies on the iterator of tar::Entries: pulls the next entry of the
/// container in source order, never rewinding; yields nothing at the end of
/// the archive, and a descriptive error where the entry is malformed or the
/// transport fails.
#[verifier::external_body]
fn next_raw_entry<'a, 'b>(stream: &'b mut EntryStream<'a>) -> (r: Option<
    Result<SourceEntry<'a>, String>,
>) {
    match stream.inner.next() {
        None => None,
        Some(Ok(inner)) => Some(Ok(SourceEntry { inner })),
        Some(Err(e)) => Some(Err(format!("unable to read tar archive entry: {}", e))),
    }
}

/// A per-entry consumer driven by [`TwrpTarFile::iter_backup`]. Its
/// abstract state records the signals it has returned, in order; `wf` is
/// whatever well-formedness the concrete consumer maintains, and every
/// invocation must preserve it.
pub trait EntryConsumer {
    /// The signals this consumer has returned so far, oldest first. A
    /// consumer that does not model its state leaves the default, about
    /// which nothing is known.
    open spec fn log(&self) -> Seq<CallbackResult> {
        arbitrary()
    }

    /// Well-formedness of the consumer's own state. A consumer that does
    /// not model its state leaves the default, about which nothing is
    /// known.
    open spec fn wf(&self) -> bool {
        arbitrary()
    }

    /// Handles one entry and signals the iteration's fate.
    fn on_entry(&mut self, entry: &mut SourceEntry<'_>) -> (r: CallbackResult)
        ensures
            final(self).log() == old(self).log().push(r),
            old(self).wf() ==> final(self).wf(),
    ;
}

impl TwrpTarFile {
    /// Drives the container parser to completion, invoking the consumer on
    /// each parsed entry in source order and interpreting its signal:
    /// `Continue` advances, `Stop` terminates with overall success, and
    /// `Error` aborts with `CallBackSignalError`. A parse failure at entry
    /// index `i` aborts with `TIOTar` carrying `i`; a failure to start the
    /// entry sequence aborts with `TIO` before any entry is attempted. The
    /// contract pins the consumer's signal record: every signal but the
    /// last of a run is `Continue`, and the run's end matches the result.
    pub fn iter_backup<C: EntryConsumer>(&mut self, consumer: &mut C) -> (r: Result<
        (),
        TwrptarxError,
    >)
        ensures
            final(consumer).log().len() >= old(consumer).log().len(),
            final(consumer).log().take(old(consumer).log().len() as int) == old(consumer).log(),
            old(consumer).wf() ==> final(consumer).wf(),
            ({
                let delta = final(consumer).log().skip(old(consumer).log().len() as int);
                &&& forall|i: int| 0 <= i < delta.len() - 1 ==> delta[i] is Continue
                &&& match r {
                    Ok(()) => delta.len() == 0 || delta.last() is Continue || delta.last()
                        is Stop,
                    Err(e) => match e {
                        TwrptarxError::CallBackSignalError => delta.len() > 0 && delta.last()
                            is Error,
                        TwrptarxError::TIOTar { index, .. } => (forall|i: int|
                            0 <= i < delta.len() ==> delta[i] is Continue) && index
                            == delta.len(),
                        TwrptarxError::TIO { .. } => delta.len() == 0,
                        _ => false,
                    },
                }
            }),
    {
        let ghost log0 = consumer.log();
        let mut stream = match start_entries(self) {
            Ok(s) => s,
            Err(desc) => {
                return Err(TwrptarxError::TIO { desc });
            },
        };
        let mut i: usize = 0;
        while i < usize::MAX
            invariant
                log0 == old(consumer).log(),
                consumer.log().len() == log0.len() + i,
                consumer.log().take(log0.len() as int) == log0,
                forall|k: int|
                    log0.len() <= k < consumer.log().len() ==> consumer.log()[k] is Continue,
                old(consumer).wf() ==> consumer.wf(),
            decreases usize::MAX - i,
        {
            match next_raw_entry(&mut stream) {
                None => {
                    proof {
                        lemma_log_delta(consumer.log(), log0.len() as int);
                    }
                    return Ok(());
                },
                Some(Err(desc)) => {
                    proof {
                        lemma_log_delta(consumer.log(), log0.len() as int);
                    }
                    return Err(TwrptarxError::TIOTar { index: i, desc });
                },
                Some(Ok(mut entry)) => {
                    let signal = consumer.on_entry(&mut entry);
                    proof {
                        assert(consumer.log().take(log0.len() as int) =~= log0);
                        lemma_log_delta(consumer.log(), log0.len() as int);
                    }
                    match signal {
                        CallbackResult::Continue => {
                            i += 1;
                        },
                        CallbackResult::Stop => {
                            return Ok(());
                        },
                        CallbackResult::Error => {
                            return Err(TwrptarxError::CallBackSignalError);
                        },
                    }
                },
            }
        }
        proof {
            lemma_log_delta(consumer.log(), log0.len() as int);
        }
        Err(
            TwrptarxError::TIOTar {
                index: i,
                desc: "entry count exceeds the supported range".to_owned(),
            },
        )
    }
}

/// The suffix of a signal record past a given point is determined, element
/// by element, by the record itself.
proof fn lemma_log_delta(log: Seq<CallbackResult>, n: int)
    requires
        0 <= n <= log.len(),
    ensures
        log.skip(n).len() == log.len() - n,
        forall|i: int| 0 <= i < log.len() - n ==> log.skip(n)[i] == log[n + i],
{
}

} // verus!
