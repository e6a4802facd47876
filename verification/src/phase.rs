use vstd::prelude::*;

verus! {

/// The steps of a migration journal, in the order in which a record passes through them.
#[derive(Clone, Copy, Debug, PartialEq, Eq, Structural)]
pub enum LegacyUploadMigrationPhase {
    Prepared,
    DeleteConfirmed,
    Quarantined,
    Reset,
    Converted,
    UploadPrepared,
    UploadVerified,
    Mirrored,
    Complete,
}

/// Where a record stands in the optimizer's own lifecycle.
#[derive(Clone, Copy, Debug, PartialEq, Eq, Structural)]
pub enum State {
    NasVerified,
    ConversionVerified,
    UploadVerified,
    DeleteEligible,
    NeedsReview,
    Failed,
}

impl LegacyUploadMigrationPhase {
    /// The place of the phase in the order, from zero.
    pub open spec fn ordinal(self) -> int {
        match self {
            LegacyUploadMigrationPhase::Prepared => 0,
            LegacyUploadMigrationPhase::DeleteConfirmed => 1,
            LegacyUploadMigrationPhase::Quarantined => 2,
            LegacyUploadMigrationPhase::Reset => 3,
            LegacyUploadMigrationPhase::Converted => 4,
            LegacyUploadMigrationPhase::UploadPrepared => 5,
            LegacyUploadMigrationPhase::UploadVerified => 6,
            LegacyUploadMigrationPhase::Mirrored => 7,
            LegacyUploadMigrationPhase::Complete => 8,
        }
    }

    /// The name under which a phase is written down.
    pub open spec fn name(self) -> Seq<char> {
        match self {
            LegacyUploadMigrationPhase::Prepared => "prepared"@,
            LegacyUploadMigrationPhase::DeleteConfirmed => "delete_confirmed"@,
            LegacyUploadMigrationPhase::Quarantined => "quarantined"@,
            LegacyUploadMigrationPhase::Reset => "reset"@,
            LegacyUploadMigrationPhase::Converted => "converted"@,
            LegacyUploadMigrationPhase::UploadPrepared => "upload_prepared"@,
            LegacyUploadMigrationPhase::UploadVerified => "upload_verified"@,
            LegacyUploadMigrationPhase::Mirrored => "mirrored"@,
            LegacyUploadMigrationPhase::Complete => "complete"@,
        }
    }

    /// The state of a record whose journal has just reached the phase.
    pub open spec fn record_state(self) -> State {
        match self {
            LegacyUploadMigrationPhase::Reset => State::NasVerified,
            LegacyUploadMigrationPhase::Converted => State::ConversionVerified,
            LegacyUploadMigrationPhase::UploadPrepared => State::ConversionVerified,
            _ => State::UploadVerified,
        }
    }

    pub fn index(self) -> (r: usize)
        ensures
            r == self.ordinal(),
    {
        match self {
            LegacyUploadMigrationPhase::Prepared => 0,
            LegacyUploadMigrationPhase::DeleteConfirmed => 1,
            LegacyUploadMigrationPhase::Quarantined => 2,
            LegacyUploadMigrationPhase::Reset => 3,
            LegacyUploadMigrationPhase::Converted => 4,
            LegacyUploadMigrationPhase::UploadPrepared => 5,
            LegacyUploadMigrationPhase::UploadVerified => 6,
            LegacyUploadMigrationPhase::Mirrored => 7,
            LegacyUploadMigrationPhase::Complete => 8,
        }
    }

    pub fn as_str(self) -> (r: &'static str)
        ensures
            r@ == self.name(),
    {
        match self {
            LegacyUploadMigrationPhase::Prepared => "prepared",
            LegacyUploadMigrationPhase::DeleteConfirmed => "delete_confirmed",
            LegacyUploadMigrationPhase::Quarantined => "quarantined",
            LegacyUploadMigrationPhase::Reset => "reset",
            LegacyUploadMigrationPhase::Converted => "converted",
            LegacyUploadMigrationPhase::UploadPrepared => "upload_prepared",
            LegacyUploadMigrationPhase::UploadVerified => "upload_verified",
            LegacyUploadMigrationPhase::Mirrored => "mirrored",
            LegacyUploadMigrationPhase::Complete => "complete",
        }
    }

    /// The state of a record whose journal has just reached the phase.
    pub fn state(self) -> (r: State)
        ensures
            r == self.record_state(),
    {
        match self {
            LegacyUploadMigrationPhase::Reset => State::NasVerified,
            LegacyUploadMigrationPhase::Converted => State::ConversionVerified,
            LegacyUploadMigrationPhase::UploadPrepared => State::ConversionVerified,
            _ => State::UploadVerified,
        }
    }
}

/// No two phases share a place in the order.
pub proof fn phases_are_strictly_ordered(
    a: LegacyUploadMigrationPhase,
    b: LegacyUploadMigrationPhase,
)
    ensures
        a.ordinal() == b.ordinal() <==> a == b,
        0 <= a.ordinal() <= LegacyUploadMigrationPhase::Complete.ordinal(),
{
}

/// A migration goes from its preparation to its end in nine phases: the delete is confirmed before
/// anything is quarantined, and what was quarantined is reset before it is converted, uploaded and
/// mirrored anew.
pub proof fn phases_come_in_order()
    ensures
        LegacyUploadMigrationPhase::Prepared.ordinal() == 0,
        LegacyUploadMigrationPhase::Prepared.ordinal() + 1
            == LegacyUploadMigrationPhase::DeleteConfirmed.ordinal(),
        LegacyUploadMigrationPhase::DeleteConfirmed.ordinal() + 1
            == LegacyUploadMigrationPhase::Quarantined.ordinal(),
        LegacyUploadMigrationPhase::Quarantined.ordinal() + 1
            == LegacyUploadMigrationPhase::Reset.ordinal(),
        LegacyUploadMigrationPhase::Reset.ordinal() + 1
            == LegacyUploadMigrationPhase::Converted.ordinal(),
        LegacyUploadMigrationPhase::Converted.ordinal() + 1
            == LegacyUploadMigrationPhase::UploadPrepared.ordinal(),
        LegacyUploadMigrationPhase::UploadPrepared.ordinal() + 1
            == LegacyUploadMigrationPhase::UploadVerified.ordinal(),
        LegacyUploadMigrationPhase::UploadVerified.ordinal() + 1
            == LegacyUploadMigrationPhase::Mirrored.ordinal(),
        LegacyUploadMigrationPhase::Mirrored.ordinal() + 1
            == LegacyUploadMigrationPhase::Complete.ordinal(),
{
}

/// A record counts as uploaded in every phase but the three in which what replaces its upload is
/// still to be uploaded: it is back to its verified original when it was reset, and converted from
/// then until the new upload is verified.
pub proof fn records_count_as_uploaded_outside_of_reset(phase: LegacyUploadMigrationPhase)
    ensures
        phase.record_state() is UploadVerified <==> phase.ordinal() <= 2 || 6 <= phase.ordinal(),
        phase.record_state() is NasVerified <==> phase.ordinal() == 3,
        phase.record_state() is ConversionVerified <==> 4 <= phase.ordinal() <= 5,
{
}

/// No two phases have the same name.
pub proof fn phase_names_are_distinct(
    a: LegacyUploadMigrationPhase,
    b: LegacyUploadMigrationPhase,
)
    ensures
        a.name() == b.name() <==> a == b,
{
    reveal_strlit("prepared");
    reveal_strlit("delete_confirmed");
    reveal_strlit("quarantined");
    reveal_strlit("reset");
    reveal_strlit("converted");
    reveal_strlit("upload_prepared");
    reveal_strlit("upload_verified");
    reveal_strlit("mirrored");
    reveal_strlit("complete");
    assert("prepared"@.len() == 8 && "prepared"@[0] == 'p');
    assert("delete_confirmed"@.len() == 16);
    assert("quarantined"@.len() == 11);
    assert("reset"@.len() == 5);
    assert("converted"@.len() == 9);
    assert("upload_prepared"@.len() == 15 && "upload_prepared"@[7] == 'p');
    assert("upload_verified"@.len() == 15 && "upload_verified"@[7] == 'v');
    assert("mirrored"@.len() == 8 && "mirrored"@[0] == 'm');
    assert("complete"@.len() == 8 && "complete"@[0] == 'c');
}

/// Every phase is written down under its own word.
pub proof fn phases_are_written_as_words()
    ensures
        LegacyUploadMigrationPhase::Prepared.name() == "prepared"@,
        LegacyUploadMigrationPhase::DeleteConfirmed.name() == "delete_confirmed"@,
        LegacyUploadMigrationPhase::Quarantined.name() == "quarantined"@,
        LegacyUploadMigrationPhase::Reset.name() == "reset"@,
        LegacyUploadMigrationPhase::Converted.name() == "converted"@,
        LegacyUploadMigrationPhase::UploadPrepared.name() == "upload_prepared"@,
        LegacyUploadMigrationPhase::UploadVerified.name() == "upload_verified"@,
        LegacyUploadMigrationPhase::Mirrored.name() == "mirrored"@,
        LegacyUploadMigrationPhase::Complete.name() == "complete"@,
{
}

} // verus!
