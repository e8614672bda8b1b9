//! One open file descriptor of a process, as seen at a point in time.

use vstd::prelude::*;
use crate::estimate::{progress_of, throughput, throughput_of, Progress};
use crate::fdinfo::{parse_info, read_fdinfo};
use crate::flags::{access_mode, FDFlags};

verus! {

/// A snapshot of a descriptor.
#[derive(Clone, Debug)]
pub struct FD {
    /// The descriptor's number within its process.
    pub id: usize,
    /// The path that the descriptor points to.
    pub name: String,
    /// The declared size in bytes, as it was when the descriptor was found;
    /// zero where it is not known.
    pub size: u64,
    /// The byte offset at the latest sample.
    pub pos: u64,
    /// How the descriptor was opened.
    pub flags: FDFlags,
    /// Bytes per second between the two latest samples; none before the
    /// second sample, or where the two do not give a rate.
    pub speed: Option<u64>,
    /// When the latest sample was taken, in nanoseconds.
    pub last_scan: u64,
}

/// What a snapshot holds.
pub ghost struct FDView {
    pub id: usize,
    pub name: Seq<char>,
    pub size: u64,
    pub pos: u64,
    pub flags: FDFlags,
    pub speed: Option<u64>,
    pub last_scan: u64,
}

impl View for FD {
    type V = FDView;

    open spec fn view(&self) -> FDView {
        FDView {
            id: self.id,
            name: self.name@,
            size: self.size,
            pos: self.pos,
            flags: self.flags,
            speed: self.speed,
            last_scan: self.last_scan,
        }
    }
}

/// The first snapshot of a descriptor, from what a look at it gave: the path
/// it points to, the text of its info record and its declared size, each
/// absent where it could not be had, and the time of the look. There is a
/// snapshot only where all three were had and the record holds an offset and
/// flags.
pub open spec fn first_snapshot(
    id: usize,
    target: Option<Seq<char>>,
    info: Option<Seq<char>>,
    size: Option<u64>,
    at: u64,
) -> Option<FDView> {
    match (target, info, size) {
        (Some(name), Some(text), Some(size)) => match parse_info(text) {
            Ok((pos, flags)) => Some(
                (FDView {
                    id,
                    name,
                    size,
                    pos,
                    flags: access_mode(flags),
                    speed: None,
                    last_scan: at,
                }),
            ),
            Err(_) => None,
        },
        _ => None,
    }
}

/// The snapshot that follows `fd` once its info record was read again at
/// time `at`: the offset is the new one, the speed is the rate between the
/// two samples, and the rest stays, the access mode and the size too. There
/// is none where the record could not be read or holds no offset and flags.
pub open spec fn next_snapshot(fd: FDView, info: Option<Seq<char>>, at: u64) -> Option<FDView> {
    match info {
        Some(text) => match parse_info(text) {
            Ok((pos, _)) => Some(
                (FDView {
                    pos,
                    speed: throughput_of(fd.pos, fd.last_scan, pos, at),
                    last_scan: at,
                    ..fd
                }),
            ),
            Err(_) => None,
        },
        None => None,
    }
}

/// The text that an optional string holds.
pub open spec fn text_of(s: Option<&str>) -> Option<Seq<char>> {
    match s {
        Some(t) => Some(t@),
        None => None,
    }
}

/// The text that an optional owned string holds.
pub open spec fn string_of(s: Option<String>) -> Option<Seq<char>> {
    match s {
        Some(t) => Some(t@),
        None => None,
    }
}

impl FD {
    /// Builds the first snapshot of descriptor `id` from what was read of
    /// it at time `at`.
    pub fn new(
        id: usize,
        target: Option<String>,
        info: Option<&str>,
        size: Option<u64>,
        at: u64,
    ) -> (fd: Option<Self>)
        ensures
            match first_snapshot(id, string_of(target), text_of(info), size, at) {
                Some(snapshot) => fd is Some && fd->0@ == snapshot,
                None => fd is None,
            },
    {
        let name = match target {
            Some(name) => name,
            None => {
                return None;
            },
        };
        let text = match info {
            Some(text) => text,
            None => {
                return None;
            },
        };
        let size = match size {
            Some(size) => size,
            None => {
                return None;
            },
        };
        match read_fdinfo(text) {
            Ok((pos, flags)) => Some(
                FD {
                    id,
                    name,
                    size,
                    pos,
                    flags: FDFlags::from(flags),
                    speed: None,
                    last_scan: at,
                },
            ),
            Err(_) => None,
        }
    }

    /// Takes a new sample: `info` is the text of the info record as read
    /// again at time `at`, absent where it could not be read. Returns whether
    /// there is a new snapshot; where there is none, the old one stays as it
    /// is and the descriptor is to be dropped.
    pub fn update(&mut self, info: Option<&str>, at: u64) -> (ok: bool)
        ensures
            match next_snapshot(old(self)@, text_of(info), at) {
                Some(snapshot) => ok && final(self)@ == snapshot,
                None => !ok && final(self)@ == old(self)@,
            },
    {
        let text = match info {
            Some(text) => text,
            None => {
                return false;
            },
        };
        match read_fdinfo(text) {
            Ok((pos, _)) => {
                self.speed = throughput(self.pos, self.last_scan, pos, at);
                self.pos = pos;
                self.last_scan = at;
                true
            },
            Err(_) => false,
        }
    }

    /// How much of the transfer is done: the offset over the declared size,
    /// at most one; none where the size is zero and so not known.
    pub fn progress(&self) -> (p: Option<Progress>)
        ensures
            p == progress_of(self@.pos, self@.size),
            self@.size == 0 <==> p is None,
            p matches Some(part) ==> part.wf(),
    {
        if self.size == 0 {
            None
        } else {
            Some(
                Progress {
                    done: if self.pos <= self.size {
                        self.pos
                    } else {
                        self.size
                    },
                    total: self.size,
                },
            )
        }
    }

    /// The throughput in bytes per second, once a second sample gave one.
    pub fn speed(&self) -> (s: Option<u64>)
        ensures
            s == self@.speed,
    {
        self.speed
    }
}

} // verus!
