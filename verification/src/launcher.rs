//! What the process launcher binds before it starts an outside program.

use vstd::prelude::*;
use crate::globals::{STDERR, STDIN, STDOUT};
use crate::resolver::{Redirects, RedirectsView};

verus! {

/// The standard streams of a program.
#[derive(Clone, Copy, Debug, PartialEq, Eq, Structural)]
pub enum Stream {
    Stdin,
    Stdout,
    Stderr,
}

/// One file to open for a program before it starts. A file for standard
/// input must exist and is opened for reading; a file for standard output
/// or standard error is created, or emptied where it exists.
#[derive(Debug)]
pub struct Binding {
    pub stream: Stream,
    pub path: String,
}

impl View for Binding {
    type V = (Stream, Seq<char>);

    open spec fn view(&self) -> (Stream, Seq<char>) {
        (self.stream, self.path@)
    }
}

/// The stream that an output redirection of descriptor `fd` binds: only
/// standard output and standard error can be bound.
pub open spec fn write_stream(fd: u16) -> Option<Stream> {
    if fd == STDOUT {
        Some(Stream::Stdout)
    } else if fd == STDERR {
        Some(Stream::Stderr)
    } else {
        None
    }
}

/// The stream that an input redirection of descriptor `fd` binds: only
/// standard input can be bound.
pub open spec fn read_stream(fd: u16) -> Option<Stream> {
    if fd == STDIN {
        Some(Stream::Stdin)
    } else {
        None
    }
}

/// Whether every redirection names a descriptor that can be bound.
pub open spec fn launchable(redirects: RedirectsView) -> bool {
    &&& forall|i: int| 0 <= i < redirects.write.len() ==> write_stream(redirects.write[i].0) is Some
    &&& forall|i: int| 0 <= i < redirects.read.len() ==> read_stream(redirects.read[i].0) is Some
}

/// The files to open, in this order: those of the output redirections as
/// they were written, then those of the input redirections.
pub open spec fn bindings_of(redirects: RedirectsView) -> Seq<(Stream, Seq<char>)> {
    redirects.write.map_values(|pair: (u16, Seq<char>)| (write_stream(pair.0)->Some_0, pair.1))
        + redirects.read.map_values(|pair: (u16, Seq<char>)| (read_stream(pair.0)->Some_0, pair.1))
}

/// The views of the bindings in a vector.
pub open spec fn binding_views(bindings: Seq<Binding>) -> Seq<(Stream, Seq<char>)> {
    bindings.map_values(|binding: Binding| binding@)
}

/// Tells whether [`bindings`] can be asked for these redirections.
pub fn supported(redirects: &Redirects) -> (ok: bool)
    ensures
        ok == launchable(redirects@),
{
    let mut i: usize = 0;
    while i < redirects.write.len()
        invariant
            i <= redirects.write.len(),
            forall|k: int| 0 <= k < i ==> write_stream(redirects@.write[k].0) is Some,
        decreases redirects.write.len() - i,
    {
        let fd: u16 = redirects.write[i].0;
        if fd != STDOUT && fd != STDERR {
            assert(write_stream(redirects@.write[i as int].0) is None);
            return false;
        }
        i += 1;
    }
    let mut j: usize = 0;
    while j < redirects.read.len()
        invariant
            j <= redirects.read.len(),
            forall|k: int| 0 <= k < redirects@.write.len() ==> write_stream(redirects@.write[k].0) is Some,
            forall|k: int| 0 <= k < j ==> read_stream(redirects@.read[k].0) is Some,
        decreases redirects.read.len() - j,
    {
        let fd: u16 = redirects.read[j].0;
        if fd != STDIN {
            assert(read_stream(redirects@.read[j as int].0) is None);
            return false;
        }
        j += 1;
    }
    true
}

/// Lists the files to open for a program.
pub fn bindings(redirects: &Redirects) -> (list: Vec<Binding>)
    requires
        launchable(redirects@),
    ensures
        binding_views(list@) == bindings_of(redirects@),
{
    let mut list: Vec<Binding> = Vec::new();
    let ghost writes = redirects@.write.map_values(
        |pair: (u16, Seq<char>)| (write_stream(pair.0)->Some_0, pair.1),
    );
    let ghost reads = redirects@.read.map_values(
        |pair: (u16, Seq<char>)| (read_stream(pair.0)->Some_0, pair.1),
    );
    let mut i: usize = 0;
    assert(binding_views(list@) =~= writes.take(0));
    while i < redirects.write.len()
        invariant
            i <= redirects.write.len(),
            launchable(redirects@),
            writes == redirects@.write.map_values(
                |pair: (u16, Seq<char>)| (write_stream(pair.0)->Some_0, pair.1),
            ),
            binding_views(list@) == writes.take(i as int),
        decreases redirects.write.len() - i,
    {
        let fd: u16 = redirects.write[i].0;
        let stream = if fd == STDOUT {
            Stream::Stdout
        } else {
            Stream::Stderr
        };
        assert(write_stream(redirects@.write[i as int].0) is Some);
        let binding = Binding { stream, path: redirects.write[i].1.clone() };
        let ghost before = binding_views(list@);
        list.push(binding);
        assert(binding_views(list@) =~= before.push(binding@));
        assert(writes.take(i + 1) =~= writes.take(i as int).push(writes[i as int]));
        i += 1;
    }
    assert(writes.take(i as int) =~= writes);
    let mut j: usize = 0;
    assert(binding_views(list@) =~= writes + reads.take(0));
    while j < redirects.read.len()
        invariant
            j <= redirects.read.len(),
            launchable(redirects@),
            reads == redirects@.read.map_values(
                |pair: (u16, Seq<char>)| (read_stream(pair.0)->Some_0, pair.1),
            ),
            binding_views(list@) == writes + reads.take(j as int),
        decreases redirects.read.len() - j,
    {
        assert(read_stream(redirects@.read[j as int].0) is Some);
        let binding = Binding { stream: Stream::Stdin, path: redirects.read[j].1.clone() };
        let ghost before = binding_views(list@);
        list.push(binding);
        assert(binding_views(list@) =~= before.push(binding@));
        assert(reads.take(j + 1) =~= reads.take(j as int).push(reads[j as int]));
        j += 1;
    }
    assert(reads.take(j as int) =~= reads);
    list
}

} // verus!
