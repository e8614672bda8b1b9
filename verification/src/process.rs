//! A monitored process: the descriptors that are tracked for it, how they
//! are found, sampled again and dropped, and which of them stand for the
//! source and the destination of the transfer.

use vstd::prelude::*;
use crate::fd::{first_snapshot, next_snapshot, string_of, FDView, FD};
use crate::flags::FDFlags;

verus! {

/// What one look at a descriptor gave when the process was scanned. What
/// could not be read is absent.
#[derive(Clone, Debug)]
pub struct Probe {
    /// The descriptor's number.
    pub id: usize,
    /// The path that the descriptor points to.
    pub target: Option<String>,
    /// The text of the descriptor's info record.
    pub info: Option<String>,
    /// The declared size in bytes.
    pub size: Option<u64>,
    /// When the look was taken, in nanoseconds.
    pub at: u64,
}

/// What a probe holds.
pub ghost struct ProbeView {
    pub id: usize,
    pub target: Option<Seq<char>>,
    pub info: Option<Seq<char>>,
    pub size: Option<u64>,
    pub at: u64,
}

impl View for Probe {
    type V = ProbeView;

    open spec fn view(&self) -> ProbeView {
        ProbeView {
            id: self.id,
            target: string_of(self.target),
            info: string_of(self.info),
            size: self.size,
            at: self.at,
        }
    }
}

/// A later look at the info record of a tracked descriptor.
#[derive(Clone, Debug)]
pub struct Sample {
    /// The descriptor's number.
    pub id: usize,
    /// The text of the descriptor's info record; absent where it could not
    /// be read.
    pub info: Option<String>,
    /// When the look was taken, in nanoseconds.
    pub at: u64,
}

/// What a sample holds.
pub ghost struct SampleView {
    pub id: usize,
    pub info: Option<Seq<char>>,
    pub at: u64,
}

impl View for Sample {
    type V = SampleView;

    open spec fn view(&self) -> SampleView {
        SampleView { id: self.id, info: string_of(self.info), at: self.at }
    }
}

/// A process and the descriptors tracked for it.
#[derive(Clone, Debug)]
pub struct Proc {
    /// The process id.
    pub pid: usize,
    /// The name of the program that the process runs.
    pub exe: String,
    /// The tracked descriptors, in the order in which they were found.
    pub fd: Vec<FD>,
}

/// What a process holds.
pub ghost struct ProcView {
    pub pid: usize,
    pub exe: Seq<char>,
    pub fd: Seq<FDView>,
}

/// What each of a sequence of snapshots holds.
pub open spec fn fd_views(fds: Seq<FD>) -> Seq<FDView> {
    fds.map_values(|fd: FD| fd@)
}

/// What each of a sequence of probes holds.
pub open spec fn probe_views(probes: Seq<Probe>) -> Seq<ProbeView> {
    probes.map_values(|probe: Probe| probe@)
}

/// What each of a sequence of samples holds.
pub open spec fn sample_views(samples: Seq<Sample>) -> Seq<SampleView> {
    samples.map_values(|sample: Sample| sample@)
}

impl View for Proc {
    type V = ProcView;

    open spec fn view(&self) -> ProcView {
        ProcView { pid: self.pid, exe: self.exe@, fd: fd_views(self.fd@) }
    }
}

/// The snapshot that a probe gives, if it gives one.
pub open spec fn probed(probe: ProbeView) -> Option<FDView> {
    first_snapshot(probe.id, probe.target, probe.info, probe.size, probe.at)
}

/// The descriptors that a scan tracks: a snapshot for each probe that gives
/// one, in the order of the probes.
pub open spec fn discovered(found: Seq<ProbeView>) -> Seq<FDView>
    decreases found.len(),
{
    if found.len() == 0 {
        Seq::empty()
    } else {
        match probed(found.last()) {
            Some(fd) => discovered(found.drop_last()).push(fd),
            None => discovered(found.drop_last()),
        }
    }
}

/// The sample that belongs to descriptor `id`: the first one that names it.
pub open spec fn sample_for(samples: Seq<SampleView>, id: usize) -> Option<SampleView>
    decreases samples.len(),
{
    if samples.len() == 0 {
        None
    } else if samples.first().id == id {
        Some(samples.first())
    } else {
        sample_for(samples.drop_first(), id)
    }
}

/// The snapshot that follows `fd` under `samples`, if its sample gives one.
/// A descriptor without a sample has none.
pub open spec fn resampled(fd: FDView, samples: Seq<SampleView>) -> Option<FDView> {
    match sample_for(samples, fd.id) {
        Some(sample) => next_snapshot(fd, sample.info, sample.at),
        None => None,
    }
}

/// The descriptors that stay tracked under `samples`: the next snapshot of
/// each one that has one, in the old order.
pub open spec fn resampled_all(fds: Seq<FDView>, samples: Seq<SampleView>) -> Seq<FDView>
    decreases fds.len(),
{
    if fds.len() == 0 {
        Seq::empty()
    } else {
        match resampled(fds.last(), samples) {
            Some(fd) => resampled_all(fds.drop_last(), samples).push(fd),
            None => resampled_all(fds.drop_last(), samples),
        }
    }
}

/// Whether the descriptor at index `i` stands for those of mode `mode`: it
/// has that mode, none of that mode is larger, and those of that mode that
/// come after it are smaller, so that of several largest ones the last
/// stands for them.
pub open spec fn is_biggest(fds: Seq<FDView>, mode: FDFlags, i: int) -> bool {
    &&& 0 <= i < fds.len()
    &&& fds[i].flags == mode
    &&& forall|j: int| 0 <= j < fds.len() && fds[j].flags == mode ==> fds[j].size <= fds[i].size
    &&& forall|j: int| i < j < fds.len() && fds[j].flags == mode ==> fds[j].size < fds[i].size
}

/// Whether some descriptor has mode `mode`.
pub open spec fn has_mode(fds: Seq<FDView>, mode: FDFlags) -> bool {
    exists|i: int| 0 <= i < fds.len() && fds[i].flags == mode
}

/// The index of the descriptor that stands for those of mode `mode`, if
/// there is one of that mode.
pub open spec fn biggest_index(fds: Seq<FDView>, mode: FDFlags) -> Option<int> {
    if exists|i: int| is_biggest(fds, mode, i) {
        Some(choose|i: int| is_biggest(fds, mode, i))
    } else {
        None
    }
}

/// The descriptor that stands for those of mode `mode`.
pub open spec fn biggest(fds: Seq<FDView>, mode: FDFlags) -> Option<FDView> {
    match biggest_index(fds, mode) {
        Some(i) => Some(fds[i]),
        None => None,
    }
}

/// At most one descriptor stands for a mode.
pub proof fn biggest_is_unique(fds: Seq<FDView>, mode: FDFlags, i: int, k: int)
    requires
        is_biggest(fds, mode, i),
        is_biggest(fds, mode, k),
    ensures
        i == k,
{
}

/// A mode has a descriptor that stands for it exactly where some
/// descriptor has that mode, and that one is among the descriptors, has the
/// mode and is as large as any of that mode.
pub proof fn biggest_exists(fds: Seq<FDView>, mode: FDFlags)
    ensures
        biggest(fds, mode) is Some <==> has_mode(fds, mode),
        biggest_index(fds, mode) matches Some(i) ==> is_biggest(fds, mode, i),
    decreases fds.len(),
{
    if has_mode(fds, mode) {
        let rest = fds.drop_last();
        let last = fds.len() - 1;
        if has_mode(rest, mode) {
            biggest_exists(rest, mode);
            let i = biggest_index(rest, mode)->0;
            assert forall|j: int| 0 <= j < rest.len() implies rest[j] == fds[j] by {}
            if fds[last].flags == mode && fds[last].size >= fds[i].size {
                assert(is_biggest(fds, mode, last));
            } else {
                assert(is_biggest(fds, mode, i));
            }
        } else {
            assert forall|j: int| 0 <= j < last implies fds[j].flags != mode by {
                assert(rest[j] == fds[j]);
            }
            assert(is_biggest(fds, mode, last));
        }
    }
}

/// Finds the sample that belongs to descriptor `id`.
pub fn find_sample(samples: &Vec<Sample>, id: usize) -> (r: Option<usize>)
    ensures
        match r {
            Some(i) => i < samples.len() && sample_for(sample_views(samples@), id) == Some(
                samples@[i as int]@,
            ),
            None => sample_for(sample_views(samples@), id) is None,
        },
{
    let ghost all = sample_views(samples@);
    let mut i: usize = 0;
    assert(all.skip(0) == all);
    while i < samples.len()
        invariant
            i <= samples.len(),
            all == sample_views(samples@),
            sample_for(all, id) == sample_for(all.skip(i as int), id),
        decreases samples.len() - i,
    {
        if samples[i].id == id {
            return Some(i);
        }
        assert(all.skip(i as int).drop_first() == all.skip(i + 1));
        i = i + 1;
    }
    None
}

impl Proc {
    /// A process with the descriptors that a scan of it found.
    pub fn new(exe: String, pid: usize, found: &Vec<Probe>) -> (p: Self)
        ensures
            p@.pid == pid,
            p@.exe == exe@,
            p@.fd == discovered(probe_views(found@)),
            forall|i: int| 0 <= i < p@.fd.len() ==> (#[trigger] p@.fd[i]).speed is None,
    {
        let mut p = Proc { exe, pid, fd: Vec::new() };
        p.get_file_descriptors(found);
        proof {
            discovered_has_no_speed(probe_views(found@));
        }
        p
    }

    /// Tracks the descriptors that a scan found, in place of those tracked
    /// before.
    pub fn get_file_descriptors(&mut self, found: &Vec<Probe>)
        ensures
            final(self)@.pid == old(self)@.pid,
            final(self)@.exe == old(self)@.exe,
            final(self)@.fd == discovered(probe_views(found@)),
    {
        let ghost probes = probe_views(found@);
        let mut fds: Vec<FD> = Vec::new();
        let mut i: usize = 0;
        while i < found.len()
            invariant
                i <= found.len(),
                probes == probe_views(found@),
                fd_views(fds@) == discovered(probes.take(i as int)),
            decreases found.len() - i,
        {
            let probe = &found[i];
            let target = match &probe.target {
                Some(path) => Some(path.clone()),
                None => None,
            };
            let info: Option<&str> = match &probe.info {
                Some(text) => Some(text.as_str()),
                None => None,
            };
            assert(probes.take(i + 1).drop_last() == probes.take(i as int));
            match FD::new(probe.id, target, info, probe.size, probe.at) {
                Some(fd) => fds.push(fd),
                None => {},
            }
            i = i + 1;
        }
        assert(probes.take(found.len() as int) == probes);
        self.fd = fds;
    }

    /// The index of the descriptor that stands for those of mode
    /// `flag_type`.
    pub fn biggest_fd_index(&self, flag_type: FDFlags) -> (r: Option<usize>)
        ensures
            match r {
                Some(i) => biggest_index(self@.fd, flag_type) == Some(i as int),
                None => biggest_index(self@.fd, flag_type) is None,
            },
            r is Some <==> has_mode(self@.fd, flag_type),
            r matches Some(i) ==> is_biggest(self@.fd, flag_type, i as int),
    {
        let ghost fds = self@.fd;
        let mut best: Option<usize> = None;
        let mut i: usize = 0;
        while i < self.fd.len()
            invariant
                i <= self.fd.len(),
                fds == self@.fd,
                fds.len() == self.fd.len(),
                match best {
                    Some(b) => b < i && is_biggest(fds.take(i as int), flag_type, b as int),
                    None => forall|j: int| 0 <= j < i ==> fds[j].flags != flag_type,
                },
            decreases self.fd.len() - i,
        {
            let takes: bool = self.fd[i].flags == flag_type && match best {
                Some(b) => self.fd[i].size >= self.fd[b].size,
                None => true,
            };
            if takes {
                best = Some(i);
            }
            i = i + 1;
        }
        proof {
            assert(fds.take(self.fd.len() as int) == fds);
            match best {
                Some(b) => {
                    let c = choose|k: int| is_biggest(fds, flag_type, k);
                    biggest_is_unique(fds, flag_type, b as int, c);
                },
                None => {},
            }
        }
        best
    }

    /// The descriptor that stands for those of mode `flag_type`: the largest
    /// of that mode by declared size, and of several largest ones the one
    /// found last. There is none where no descriptor has that mode.
    pub fn find_biggest_fd(&self, flag_type: FDFlags) -> (r: Option<&FD>)
        ensures
            match r {
                Some(fd) => biggest(self@.fd, flag_type) == Some(fd@),
                None => biggest(self@.fd, flag_type) is None,
            },
            r is Some <==> has_mode(self@.fd, flag_type),
            r matches Some(fd) ==> exists|i: int|
                is_biggest(self@.fd, flag_type, i) && self.fd@[i] == *fd,
    {
        match self.biggest_fd_index(flag_type) {
            Some(i) => Some(&self.fd[i]),
            None => None,
        }
    }

    /// Samples the tracked descriptors again: each one takes the sample that
    /// names it. One whose sample gives a snapshot is kept with it; one
    /// without a sample, or whose info record could not be read or used, is
    /// dropped. No descriptor is added.
    pub fn update(&mut self, samples: &Vec<Sample>)
        ensures
            final(self)@.pid == old(self)@.pid,
            final(self)@.exe == old(self)@.exe,
            final(self)@.fd == resampled_all(old(self)@.fd, sample_views(samples@)),
    {
        let ghost was = self@.fd;
        let ghost given = sample_views(samples@);
        let mut held: Vec<FD> = Vec::new();
        std::mem::swap(&mut self.fd, &mut held);
        let ghost held_seq = held@;
        let mut kept: Vec<FD> = Vec::new();
        for fd in it: held
            invariant
                it.seq() == held_seq,
                fd_views(held_seq) == was,
                given == sample_views(samples@),
                fd_views(kept@) == resampled_all(was.take(it.index() as int), given),
        {
            let ghost k = it.index() as int;
            assert(was.take(k + 1).drop_last() == was.take(k));
            let mut fd = fd;
            let ok = match find_sample(samples, fd.id) {
                Some(s) => {
                    let info: Option<&str> = match &samples[s].info {
                        Some(text) => Some(text.as_str()),
                        None => None,
                    };
                    fd.update(info, samples[s].at)
                },
                None => false,
            };
            if ok {
                kept.push(fd);
            }
        }
        assert(was.take(held_seq.len() as int) == was);
        self.fd = kept;
    }
}

/// What stays after sampling again is made of next snapshots, and of all of
/// them: each descriptor that stays is the next snapshot of one held
/// before, so none is added, and each next snapshot that there is stays.
pub proof fn resampled_all_members(fds: Seq<FDView>, samples: Seq<SampleView>)
    ensures
        resampled_all(fds, samples).len() <= fds.len(),
        forall|k: int|
            0 <= k < resampled_all(fds, samples).len() ==> exists|i: int|
                0 <= i < fds.len() && resampled(fds[i], samples) == Some(
                    #[trigger] resampled_all(fds, samples)[k],
                ),
        forall|i: int|
            0 <= i < fds.len() && (#[trigger] resampled(fds[i], samples)) is Some
                ==> resampled_all(fds, samples).contains(resampled(fds[i], samples)->0),
    decreases fds.len(),
{
    if fds.len() > 0 {
        let rest = fds.drop_last();
        let last = fds.len() - 1;
        let kept = resampled_all(fds, samples);
        let kept_rest = resampled_all(rest, samples);
        resampled_all_members(rest, samples);
        assert forall|i: int|
            0 <= i < fds.len() && (#[trigger] resampled(fds[i], samples)) is Some implies kept.contains(
            resampled(fds[i], samples)->0,
        ) by {
            let next = resampled(fds[i], samples)->0;
            if i < last {
                assert(rest[i] == fds[i]);
                let k = choose|k: int| 0 <= k < kept_rest.len() && kept_rest[k] == next;
                assert(kept[k] == next);
            } else {
                assert(kept[kept.len() - 1] == next);
            }
        }
    }
}

/// A descriptor whose sample gives no snapshot is dropped: no descriptor
/// that stays has its number.
pub proof fn failed_resample_is_dropped(fds: Seq<FDView>, samples: Seq<SampleView>, i: int)
    requires
        0 <= i < fds.len(),
        resampled(fds[i], samples) is None,
    ensures
        forall|k: int|
            0 <= k < resampled_all(fds, samples).len() ==> (#[trigger] resampled_all(
                fds,
                samples,
            )[k]).id != fds[i].id,
{
    let kept = resampled_all(fds, samples);
    resampled_all_members(fds, samples);
}

/// A descriptor whose sample gives a snapshot stays, with that snapshot,
/// whatever becomes of the others.
pub proof fn other_descriptors_remain(fds: Seq<FDView>, samples: Seq<SampleView>, i: int)
    requires
        0 <= i < fds.len(),
        resampled(fds[i], samples) is Some,
    ensures
        resampled_all(fds, samples).contains(resampled(fds[i], samples)->0),
        (resampled(fds[i], samples)->0).id == fds[i].id,
        (resampled(fds[i], samples)->0).name == fds[i].name,
        (resampled(fds[i], samples)->0).size == fds[i].size,
        (resampled(fds[i], samples)->0).flags == fds[i].flags,
{
    resampled_all_members(fds, samples);
}

/// A scan gives no throughput: it takes one sample of each descriptor.
pub proof fn discovered_has_no_speed(found: Seq<ProbeView>)
    ensures
        forall|i: int|
            0 <= i < discovered(found).len() ==> (#[trigger] discovered(found)[i]).speed is None,
    decreases found.len(),
{
    if found.len() > 0 {
        discovered_has_no_speed(found.drop_last());
    }
}

} // verus!
