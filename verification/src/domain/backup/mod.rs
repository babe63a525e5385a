//! Copies of the whole database that the user can keep somewhere else.
//!
//! The format is the SQLite file itself rather than an export of its contents,
//! so restoring is not a merge with its own conflict rules but a replacement.
//! Migrations run on a restored file the same as on any other, so a backup made
//! by an older build still opens.

use vstd::prelude::*;

use crate::domain::calendar::zone_reading;
use crate::domain::clock::{Timestamp, Zone};
use crate::error::{AppError, AppResult, BackupError};
use crate::text::{append_chars, append_str, decimal, decimal_chars, signed_decimal, signed_decimal_chars, string_of};

verus! {

/// The extension is `.sqlite` on purpose: an opaque one would hide from the
/// user that their notes are in a format any SQLite tool can read.
pub const BACKUP_EXTENSION: &'static str = "sqlite";

pub const BACKUP_MIME_TYPE: &'static str = "application/vnd.sqlite3";

/// What a candidate file turned out to hold.
#[derive(Clone, Debug, PartialEq, Eq)]
pub struct BackupContents {
    pub schema_version: i64,
    pub note_count: i64,
    pub reminder_count: i64,
    pub size_bytes: u64,
    pub sha256: String,
}

/// A backup that was actually written somewhere.
#[derive(Clone, Debug, PartialEq, Eq)]
pub struct BackupRecord {
    /// Where it went, as far as the app can tell — for the user to recognise,
    /// not to open.
    pub location: String,
    pub file_name: String,
    pub size_bytes: u64,
    pub sha256: String,
    pub note_count: i64,
    pub created_at: Timestamp,
}

/// A number in decimal, zero-padded to at least `width` digits.
pub open spec fn padded(n: nat, width: nat) -> Seq<char> {
    let digits = decimal(n);
    if digits.len() >= width {
        digits
    } else {
        Seq::new((width - digits.len()) as nat, |i: int| '0') + digits
    }
}

/// A year as `%Y` writes it: four digits from 0 to 9999, and a sign in front
/// of the four or more digits of any other year.
pub open spec fn year_text(year: int) -> Seq<char> {
    if 0 <= year <= 9999 {
        padded(year as nat, 4)
    } else if year < 0 {
        seq!['-'] + padded((-year) as nat, 4)
    } else {
        seq!['+'] + padded(year as nat, 4)
    }
}

/// The name of a backup made at an instant: dated by the user's own clock as
/// `xima-keeps-YYYY-MM-DD-HHMM.sqlite`, or by the raw instant when the clock
/// cannot read it.
pub open spec fn backup_file_name(millis: int, zone: Seq<char>) -> Seq<char> {
    match zone_reading(millis, zone) {
        Some(local) => "xima-keeps-"@ + year_text(local.date.year as int) + seq!['-'] + padded(
            local.date.month as nat,
            2,
        ) + seq!['-'] + padded(local.date.day as nat, 2) + seq!['-'] + padded(
            local.hour as nat,
            2,
        ) + padded(local.minute as nat, 2) + ".sqlite"@,
        None => "xima-keeps-"@ + signed_decimal(millis) + ".sqlite"@,
    }
}

fn push_padded(out: &mut Vec<char>, n: u64, width: usize)
    ensures
        final(out)@ == old(out)@ + padded(n as nat, width as nat),
{
    let digits = decimal_chars(n);
    let ghost before = out@;
    let mut k: usize = digits.len();
    while k < width
        invariant
            digits@.len() <= k <= width || (k == digits@.len() && k >= width),
            out@ == before + Seq::new((k - digits@.len()) as nat, |i: int| '0'),
        decreases width - k,
    {
        out.push('0');
        k = k + 1;
        assert(out@ =~= before + Seq::new((k - digits@.len()) as nat, |i: int| '0'));
    }
    append_chars(out, &digits);
    assert(out@ =~= before + padded(n as nat, width as nat));
}

/// A name that sorts chronologically and says what the file is.
///
/// The user's own zone is used, not UTC: a backup made at nine in the evening
/// should not be dated the next day in the file list.
pub fn file_name_for(now: Timestamp, zone: &Zone) -> (name: String)
    ensures
        name@ == backup_file_name(now.0 as int, zone@),
{
    let mut out: Vec<char> = Vec::new();
    append_str(&mut out, "xima-keeps-");
    match now.to_zoned(zone) {
        Ok(local) => {
            let year = local.date.year;
            if 0 <= year && year <= 9999 {
                push_padded(&mut out, year as u64, 4);
            } else if year < 0 {
                out.push('-');
                push_padded(&mut out, (0i64 - year as i64) as u64, 4);
            } else {
                out.push('+');
                push_padded(&mut out, year as u64, 4);
            }
            out.push('-');
            push_padded(&mut out, local.date.month as u64, 2);
            out.push('-');
            push_padded(&mut out, local.date.day as u64, 2);
            out.push('-');
            push_padded(&mut out, local.hour as u64, 2);
            push_padded(&mut out, local.minute as u64, 2);
        },
        Err(_) => {
            let digits = signed_decimal_chars(now.0);
            append_chars(&mut out, &digits);
        },
    }
    append_str(&mut out, ".sqlite");
    string_of(&out)
}

/// Decides whether a file may replace the live database.
///
/// # Errors
/// A corrupt backup for a file that has our tables but no schema version, and
/// an unsupported version for one from a newer build — migrations only run
/// forwards.
pub fn ensure_restorable(contents: &BackupContents, supported_version: i64) -> (r: AppResult<()>)
    ensures
        contents.schema_version <= 0 ==> r == Err::<(), AppError>(AppError::Backup(BackupError::Corrupt)),
        0 < contents.schema_version <= supported_version ==> r == Ok::<(), AppError>(()),
        contents.schema_version > 0 && contents.schema_version > supported_version ==> r == Err::<
            (),
            AppError,
        >(
            AppError::Backup(
                BackupError::UnsupportedVersion {
                    found: if contents.schema_version > u32::MAX {
                        u32::MAX
                    } else {
                        contents.schema_version as u32
                    },
                },
            ),
        ),
{
    if contents.schema_version <= 0 {
        return Err(AppError::Backup(BackupError::Corrupt));
    }
    if contents.schema_version > supported_version {
        let found: u32 = if contents.schema_version > u32::MAX as i64 {
            u32::MAX
        } else {
            contents.schema_version as u32
        };
        return Err(AppError::Backup(BackupError::UnsupportedVersion { found }));
    }
    Ok(())
}

} // verus!
