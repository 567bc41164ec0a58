//! The entry points of the facade: installing the recorder, asking whether an
//! event is enabled, and delivering one.
//!
//! Every entry point takes the slot of the process as its first argument. A
//! call site first holds the level of its event against the ceilings, and only
//! then touches the slot; without a recorder to borrow the event is dropped in
//! silence.

use crate::level::{LogLevel, LogLevelFilter};
use crate::model::lemma_count_in_and_out;
use crate::record::{
    Log, LogLocation, LogLocationView, LogMetadata, LogMetadataView, LogRecord, LogRecordView,
};
use crate::slot::{MaxLogLevelFilter, RecorderSlot, SetLoggerError};
use vstd::prelude::*;

verus! {

/// Returns the current ceiling of the slot. Call sites discard every event of
/// a level above it.
pub fn max_log_level<L>(slot: &RecorderSlot<L>) -> (r: LogLevelFilter)
    ensures
        r == slot@.max_level,
{
    slot.max_level()
}

/// Installs the recorder that `make_logger` builds.
///
/// The slot is claimed first. Only on a slot that nobody had claimed is
/// `make_logger` run, once, with the capability for the ceiling; its recorder is
/// stored and the slot becomes active. On any other slot the call fails with
/// the one error there is and changes nothing. After `Ok` the caller arranges
/// for the shutdown to run when the process ends.
pub fn set_logger<L, M>(slot: &mut RecorderSlot<L>, make_logger: M) -> (r: Result<
    (),
    SetLoggerError,
>) where L: Log, M: FnOnce(MaxLogLevelFilter) -> L
    requires
        forall|token: MaxLogLevelFilter| make_logger.requires((token,)),
    ensures
        r is Ok <==> old(slot)@.claimable(),
        r is Ok ==> final(slot)@ == old(slot)@.claim().publish() && final(slot).installed() is Some
            && exists|token: MaxLogLevelFilter|
            make_logger.ensures((token,), final(slot).installed()->0),
        r is Err ==> final(slot)@ == old(slot)@ && final(slot).installed() == old(
            slot,
        ).installed(),
        old(slot)@.wf() ==> final(slot)@.wf(),
{
    match slot.begin_install() {
        Err(e) => Err(e),
        Ok(token) => {
            let ghost handed = token;
            let recorder = make_logger(token);
            let ghost built = recorder;
            let stored = slot.complete_install(recorder);
            assert(stored is Ok);
            assert(slot.installed() == Some(built));
            assert(make_logger.ensures((handed,), slot.installed()->0));
            Ok(())
        },
    }
}

/// Asks the recorder whether an event of this level and target would be
/// recorded. Without a recorder to borrow the answer is `false`. The slot is the
/// same after the call as before: the guard that was taken is given back.
pub fn __enabled<L: Log>(slot: &mut RecorderSlot<L>, level: LogLevel, target: &str) -> (r: bool)
    ensures
        final(slot)@ == old(slot)@,
        final(slot).installed() == old(slot).installed(),
        !old(slot)@.available() || old(slot)@.full() ==> !r,
        old(slot)@.available() && !old(slot)@.full() ==> exists|
            metadata: LogMetadata,
        |
            metadata@ == (LogMetadataView { level, target: target@ }) && call_ensures(
                L::enabled,
                (&old(slot).installed()->0, &metadata),
                r,
            ),
{
    match slot.logger() {
        Some(guard) => {
            let answer = match slot.recorder(&guard) {
                Some(recorder) => {
                    let metadata = LogMetadata::new(level, target);
                    let answer = recorder.enabled(&metadata);
                    assert(call_ensures(L::enabled, (recorder, &metadata), answer));
                    answer
                },
                None => false,
            };
            guard.release(slot);
            proof {
                lemma_count_in_and_out(old(slot)@);
            }
            answer
        },
        None => false,
    }
}

/// Delivers an event to the recorder: takes a guard, hands the recorder the
/// record of the event, and gives the guard back. Without a recorder to borrow
/// nothing happens. The result says whether a guard was obtained, that is
/// whether the record went to the recorder. The recorder is not asked first
/// whether the event is enabled.
pub fn __log<L: Log>(
    slot: &mut RecorderSlot<L>,
    level: LogLevel,
    target: &str,
    loc: &LogLocation,
    args: &str,
) -> (delivered: bool)
    ensures
        final(slot)@ == old(slot)@,
        final(slot).installed() == old(slot).installed(),
        delivered <==> old(slot)@.available() && !old(slot)@.full(),
        delivered ==> exists|record: LogRecord|
            record@ == event(level, target@, loc@, args@) && call_ensures(
                L::log,
                (&old(slot).installed()->0, &record),
                (),
            ),
{
    match slot.logger() {
        Some(guard) => {
            let delivered = match slot.recorder(&guard) {
                Some(recorder) => {
                    let record = LogRecord::new(level, target, loc, args);
                    recorder.log(&record);
                    assert(call_ensures(L::log, (recorder, &record), ()));
                    true
                },
                None => false,
            };
            guard.release(slot);
            proof {
                lemma_count_in_and_out(old(slot)@);
            }
            delivered
        },
        None => false,
    }
}

/// The record of an event as the recorder receives it.
pub open spec fn event(
    level: LogLevel,
    target: Seq<char>,
    location: LogLocationView,
    message: Seq<char>,
) -> LogRecordView {
    LogRecordView { metadata: LogMetadataView { level, target }, location, message }
}

/// Whether an event of `level` passes both ceilings: the one fixed when the
/// program was built and the one the recorder has set.
pub open spec fn passes(level: LogLevel, static_max: LogLevelFilter, max: LogLevelFilter) -> bool {
    level.ordinal() <= static_max.ordinal() && level.ordinal() <= max.ordinal()
}

/// What a call site does to find out whether to build an event at all: it
/// holds the level against both ceilings and, if it passes, asks the recorder.
pub fn log_enabled<L: Log>(
    slot: &mut RecorderSlot<L>,
    static_max: LogLevelFilter,
    level: LogLevel,
    target: &str,
) -> (r: bool)
    ensures
        final(slot)@ == old(slot)@,
        final(slot).installed() == old(slot).installed(),
        !passes(level, static_max, old(slot)@.max_level) || !old(slot)@.available() || old(
            slot,
        )@.full() ==> !r,
        passes(level, static_max, old(slot)@.max_level) && old(slot)@.available() && !old(
            slot,
        )@.full() ==> exists|metadata: LogMetadata|
            metadata@ == (LogMetadataView { level, target: target@ }) && call_ensures(
                L::enabled,
                (&old(slot).installed()->0, &metadata),
                r,
            ),
{
    if level <= static_max && level <= max_log_level(slot) {
        __enabled(slot, level, target)
    } else {
        false
    }
}

/// What a call site does with an event: an event above either ceiling is
/// dropped without touching the slot or the recorder; any other is delivered as
/// [`__log`] delivers it. The result says whether the record went to the recorder.
pub fn log<L: Log>(
    slot: &mut RecorderSlot<L>,
    static_max: LogLevelFilter,
    level: LogLevel,
    target: &str,
    loc: &LogLocation,
    args: &str,
) -> (delivered: bool)
    ensures
        final(slot)@ == old(slot)@,
        final(slot).installed() == old(slot).installed(),
        delivered <==> passes(level, static_max, old(slot)@.max_level) && old(slot)@.available()
            && !old(slot)@.full(),
        delivered ==> exists|record: LogRecord|
            record@ == event(level, target@, loc@, args@) && call_ensures(
                L::log,
                (&old(slot).installed()->0, &record),
                (),
            ),
{
    if level <= static_max && level <= max_log_level(slot) {
        __log(slot, level, target, loc, args)
    } else {
        false
    }
}

} // verus!
