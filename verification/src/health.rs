//! The decisions of the start-up health check: what to report about the
//! settings file and its backup, whether to restore the backup, and whether
//! the disk that holds the app's data is running out of space.
//!
//! The caller looks at the files and the disks and hands in what it found.

use vstd::prelude::*;

use crate::text::{decimal, push_decimal};

verus! {

/// What was found of the backup of a corrupted settings file.
#[derive(Clone, Copy, Debug, PartialEq, Eq, Structural)]
pub enum BackupState {
    /// There is no backup file.
    Missing,
    /// The backup file exists but could not be read.
    Unreadable,
    /// The backup file was read but does not hold valid settings.
    Corrupted,
    /// The backup file holds valid settings.
    Valid,
}

/// What was found of the settings file.
#[derive(Clone, Copy, Debug, PartialEq, Eq, Structural)]
pub enum SettingsFileState {
    /// There is no settings file yet.
    Missing,
    /// The settings file exists but could not be read.
    Unreadable,
    /// The settings file holds valid settings.
    Valid,
    /// The settings file was read but does not hold valid settings; what was
    /// found of its backup.
    Corrupted(BackupState),
}

/// A mounted disk.
#[derive(Clone, Debug)]
pub struct DiskInfo {
    /// The app's data directory lies under this disk's mount point.
    pub holds_data_dir: bool,
    /// Bytes available on the disk.
    pub available_bytes: u64,
    /// Where the disk is mounted, as text.
    pub mount_point: String,
}

/// What the health check reports, and whether the backup is to be copied over
/// the settings file.
#[derive(Clone, Debug)]
pub struct HealthReport {
    pub messages: Vec<String>,
    pub restore_backup: bool,
}

/// Below this many MB free on the data disk the health check warns.
pub const LOW_DISK_MB: u64 = 500;

/// The messages about the settings file.
pub open spec fn settings_file_messages(state: SettingsFileState) -> Seq<Seq<char>> {
    match state {
        SettingsFileState::Missing => seq!["no settings file yet (will create defaults)"@],
        SettingsFileState::Unreadable => seq!["cannot read settings file"@],
        SettingsFileState::Valid => seq!["settings OK"@],
        SettingsFileState::Corrupted(backup) => if backup == BackupState::Valid {
            seq!["settings file corrupted"@, "restored settings from backup"@]
        } else {
            seq!["settings file corrupted"@]
        },
    }
}

/// The backup is restored exactly when the settings file is corrupted and the
/// backup is valid.
pub open spec fn restores_backup(state: SettingsFileState) -> bool {
    state == SettingsFileState::Corrupted(BackupState::Valid)
}

/// Whole MB in a number of bytes, rounded down.
pub open spec fn free_mb(available_bytes: u64) -> nat {
    (available_bytes / 1024 / 1024) as nat
}

/// The warning for a disk with little space left.
pub open spec fn low_disk_text(free: nat, mount_point: Seq<char>) -> Seq<char> {
    "low disk space: "@ + decimal(free) + "MB free on "@ + mount_point
}

/// The warning about the first disk that holds the data directory, if it has
/// less than 500 MB free; later disks are not looked at.
pub open spec fn low_disk_message(disks: Seq<DiskInfo>) -> Option<Seq<char>>
    decreases disks.len(),
{
    if disks.len() == 0 {
        None
    } else if disks[0].holds_data_dir {
        if free_mb(disks[0].available_bytes) < LOW_DISK_MB {
            Some(low_disk_text(free_mb(disks[0].available_bytes), disks[0].mount_point@))
        } else {
            None
        }
    } else {
        low_disk_message(disks.drop_first())
    }
}

/// All messages of the health check: those about the settings file, then the
/// disk warning, if the data directory is known (`disks` is `Some`) and the
/// warning is due.
pub open spec fn health_messages(state: SettingsFileState, disks: Option<Seq<DiskInfo>>) -> Seq<
    Seq<char>,
> {
    settings_file_messages(state) + match disks {
        Some(d) => match low_disk_message(d) {
            Some(m) => seq![m],
            None => Seq::empty(),
        },
        None => Seq::empty(),
    }
}

/// The report on the settings file.
pub fn settings_file_report(state: SettingsFileState) -> (r: HealthReport)
    ensures
        r.messages.deep_view() == settings_file_messages(state),
        r.restore_backup == restores_backup(state),
{
    let mut messages: Vec<String> = Vec::new();
    let mut restore_backup = false;
    match state {
        SettingsFileState::Missing => {
            messages.push(String::from_str("no settings file yet (will create defaults)"));
        },
        SettingsFileState::Unreadable => {
            messages.push(String::from_str("cannot read settings file"));
        },
        SettingsFileState::Valid => {
            messages.push(String::from_str("settings OK"));
        },
        SettingsFileState::Corrupted(backup) => {
            messages.push(String::from_str("settings file corrupted"));
            match backup {
                BackupState::Valid => {
                    restore_backup = true;
                    messages.push(String::from_str("restored settings from backup"));
                },
                _ => {},
            }
        },
    }
    proof {
        assert(messages.deep_view() =~= settings_file_messages(state));
    }
    HealthReport { messages, restore_backup }
}

/// The warning about the disk that holds the data directory, if it is due.
pub fn disk_space_message(disks: &Vec<DiskInfo>) -> (r: Option<String>)
    ensures
        r.is_some() == low_disk_message(disks@).is_some(),
        r matches Some(m) ==> low_disk_message(disks@) == Some(m@),
{
    let mut i: usize = 0;
    proof {
        assert(disks@.subrange(0, disks@.len() as int) =~= disks@);
    }
    while i < disks.len()
        invariant
            0 <= i <= disks.len(),
            low_disk_message(disks@) == low_disk_message(disks@.subrange(i as int, disks@.len() as int)),
        decreases disks.len() - i,
    {
        let ghost rest = disks@.subrange(i as int, disks@.len() as int);
        proof {
            assert(rest[0] == disks@[i as int]);
            assert(rest.drop_first() =~= disks@.subrange(i + 1, disks@.len() as int));
        }
        if disks[i].holds_data_dir {
            let free = disks[i].available_bytes / 1024 / 1024;
            if free < LOW_DISK_MB {
                let mut m = String::from_str("low disk space: ");
                push_decimal(&mut m, free);
                m.append("MB free on ");
                m.append(disks[i].mount_point.as_str());
                return Some(m);
            } else {
                return None;
            }
        }
        i = i + 1;
    }
    proof {
        assert(disks@.subrange(i as int, disks@.len() as int).len() == 0);
    }
    None
}

/// The whole health check: the report on the settings file, then the disk
/// warning when the data directory is known (`disks` is `Some`).
pub fn health_report(state: SettingsFileState, disks: Option<&Vec<DiskInfo>>) -> (r: HealthReport)
    ensures
        r.messages.deep_view() == health_messages(
            state,
            match disks {
                Some(d) => Some(d@),
                None => None,
            },
        ),
        r.restore_backup == restores_backup(state),
{
    let mut report = settings_file_report(state);
    let ghost first = report.messages.deep_view();
    match disks {
        Some(d) => {
            match disk_space_message(d) {
                Some(m) => {
                    report.messages.push(m);
                    proof {
                        assert(report.messages.deep_view() =~= first.push(m@));
                    }
                },
                None => {},
            }
        },
        None => {},
    }
    proof {
        assert(report.messages.deep_view() =~= health_messages(
            state,
            match disks {
                Some(d) => Some(d@),
                None => None,
            },
        ));
    }
    report
}

} // verus!
