//! The report on a process: which descriptor is its source and which its
//! destination, how far the transfer is and how fast it goes, as text.

use vstd::prelude::*;
use vstd::string::*;
use crate::estimate::progress_of;
use crate::fd::{FDView, FD};
use crate::flags::FDFlags;
use crate::process::{biggest, has_mode, Proc, ProcView};
use crate::size::{push_size, size_text};
use crate::text::{decimal, push_decimal, push_two_decimals, two_decimals};

verus! {

/// The descriptor that a process reads from: the one that stands for the
/// read-only descriptors, or, where there is none, the one that stands for
/// those open for reading and writing.
pub open spec fn source_of(fds: Seq<FDView>) -> Option<FDView> {
    match biggest(fds, FDFlags::ReadOnly) {
        Some(fd) => Some(fd),
        None => biggest(fds, FDFlags::ReadWrite),
    }
}

/// The descriptor that a process writes to: the one that stands for the
/// write-only descriptors.
pub open spec fn destination_of(fds: Seq<FDView>) -> Option<FDView> {
    biggest(fds, FDFlags::WriteOnly)
}

/// The throughput as text: nothing where there is none.
pub open spec fn speed_text(speed: Option<u64>) -> Seq<char> {
    match speed {
        Some(rate) => size_text(rate as nat) + "/s"@,
        None => Seq::empty(),
    }
}

/// The line on the progress of a source: the percentage done with two
/// decimal places, the offset and the size, and the throughput if there is
/// one; or that the progress is not known.
pub open spec fn progress_line(fd: FDView) -> Seq<char> {
    match progress_of(fd.pos, fd.size) {
        Some(part) => "\t"@ + two_decimals(part.spec_basis_points()) + "% ("@ + size_text(
            fd.pos as nat,
        ) + " / "@ + size_text(fd.size as nat) + ") "@ + speed_text(fd.speed) + "\n"@,
        None => "\tUnknown progress\n"@,
    }
}

/// The report on a process. Its first line names the process, and the
/// source and the destination where there is a source; the second gives the
/// progress, or says that no descriptor is read from; an empty line ends it.
pub open spec fn report_text(p: ProcView) -> Seq<char> {
    let head = "["@ + decimal(p.pid as nat) + "] "@ + p.exe;
    match source_of(p.fd) {
        Some(source) => head + " "@ + source.name + " > "@ + (match destination_of(p.fd) {
            Some(destination) => destination.name,
            None => Seq::empty(),
        }) + "\n"@ + progress_line(source) + "\n"@,
        None => head + "\n\tNo readable stream\n\n"@,
    }
}

/// Appends the throughput to `out`.
pub fn push_speed(out: &mut String, speed: Option<u64>)
    ensures
        final(out)@ == old(out)@ + speed_text(speed),
{
    match speed {
        Some(rate) => {
            push_size(out, rate);
            out.append("/s");
        },
        None => {},
    }
}

/// Appends the line on the progress of `fd` to `out`.
pub fn push_progress_line(out: &mut String, fd: &FD)
    ensures
        final(out)@ == old(out)@ + progress_line(fd@),
{
    match fd.progress() {
        Some(part) => {
            out.append("\t");
            push_two_decimals(out, part.basis_points());
            out.append("% (");
            push_size(out, fd.pos);
            out.append(" / ");
            push_size(out, fd.size);
            out.append(") ");
            push_speed(out, fd.speed());
            out.append("\n");
        },
        None => {
            out.append("\tUnknown progress\n");
        },
    }
}

impl Proc {
    /// The descriptor that the process reads from, if it has one.
    pub fn source(&self) -> (r: Option<&FD>)
        ensures
            match r {
                Some(fd) => source_of(self@.fd) == Some(fd@),
                None => source_of(self@.fd) is None,
            },
            r is Some <==> has_mode(self@.fd, FDFlags::ReadOnly) || has_mode(
                self@.fd,
                FDFlags::ReadWrite,
            ),
    {
        match self.find_biggest_fd(FDFlags::ReadOnly) {
            Some(fd) => Some(fd),
            None => self.find_biggest_fd(FDFlags::ReadWrite),
        }
    }

    /// The report on the process, as the text to show.
    pub fn print(&self) -> (out: String)
        ensures
            out@ == report_text(self@),
    {
        let mut out = String::new();
        out.append("[");
        push_decimal(&mut out, self.pid as u64);
        out.append("] ");
        out.append(self.exe.as_str());
        match self.source() {
            Some(source) => {
                out.append(" ");
                out.append(source.name.as_str());
                out.append(" > ");
                match self.find_biggest_fd(FDFlags::WriteOnly) {
                    Some(destination) => out.append(destination.name.as_str()),
                    None => {},
                }
                out.append("\n");
                push_progress_line(&mut out, source);
                out.append("\n");
            },
            None => {
                out.append("\n\tNo readable stream\n\n");
            },
        }
        out
    }
}

} // verus!
