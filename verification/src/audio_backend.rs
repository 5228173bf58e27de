//! The audio backends that a player can write to, and how one is found by
//! name.

use vstd::prelude::*;
use vstd::string::StringExecFns;

verus! {

/// The error of an I/O operation, as the standard library defines it. Nothing
/// is claimed of its contents.
#[verifier::external_type_specification]
#[verifier::external_body]
pub struct ExIoError(std::io::Error);

/// A backend that can be opened on a device, or on its default device.
pub trait Open: Sized {
    fn open(device: Option<String>) -> Self;
}

/// A backend that takes samples.
pub trait Sink {
    fn start(&mut self) -> Result<(), std::io::Error>;

    fn stop(&mut self) -> Result<(), std::io::Error>;

    fn write(&mut self, data: &[i16]) -> Result<(), std::io::Error>;
}

/// Opens the backend `S` on `device`: the sink is what `S::open` answers for
/// that device, whatever `S` promises of it. Where backends of several kinds
/// are kept together, the caller turns the result into a `Box<dyn Sink>`.
pub fn mk_sink<S: Sink + Open + 'static>(device: Option<String>) -> (sink: Box<S>)
    ensures
        call_ensures(S::open, (device,), *sink),
{
    Box::new(S::open(device))
}

/// The backends that are built in.
#[derive(Clone, Copy, Debug, PartialEq, Eq, Structural)]
pub enum Backend {
    /// Writes the samples to the standard output.
    Pipe,
}

/// The built-in backends by name, the default one first.
pub open spec fn backends_view() -> Seq<(Seq<char>, Backend)> {
    seq![("pipe"@, Backend::Pipe)]
}

/// The first of `backends` that goes by `name`.
pub open spec fn first_named(backends: Seq<(Seq<char>, Backend)>, name: Seq<char>) -> Option<
    Backend,
>
    decreases backends.len(),
{
    if backends.len() == 0 {
        None
    } else if backends[0].0 == name {
        Some(backends[0].1)
    } else {
        first_named(backends.drop_first(), name)
    }
}

/// The backend that `find` gives: the first one of that name, or the default
/// backend where no name is given.
pub open spec fn find_view(name: Option<Seq<char>>) -> Option<Backend> {
    match name {
        Some(name) => first_named(backends_view(), name),
        None => Some(backends_view()[0].1),
    }
}

/// The built-in backends by name, the default one first.
pub fn backends() -> (backends: Vec<(String, Backend)>)
    ensures
        backends.deep_view() == backends_view(),
{
    let mut backends: Vec<(String, Backend)> = Vec::new();
    backends.push((String::from_str("pipe"), Backend::Pipe));
    assert(backends.deep_view() =~= backends_view());
    backends
}

impl View for Backend {
    type V = Backend;

    open spec fn view(&self) -> Backend {
        *self
    }
}

impl DeepView for Backend {
    type V = Backend;

    open spec fn deep_view(&self) -> Backend {
        *self
    }
}

/// Finds a built-in backend by name. Without a name it gives the default
/// backend.
pub fn find(name: Option<&str>) -> (backend: Option<Backend>)
    ensures
        backend == find_view(
            match name {
                Some(name) => Some(name@),
                None => None,
            },
        ),
{
    let backends = backends();
    match name {
        Some(wanted) => {
            let wanted_name = String::from_str(wanted);
            let mut i: usize = 0;
            assert(backends.deep_view().subrange(0, backends.len() as int)
                =~= backends.deep_view());
            while i < backends.len()
                invariant
                    i <= backends.len(),
                    name == Some(wanted),
                    wanted_name@ == wanted@,
                    backends.deep_view() == backends_view(),
                    first_named(backends.deep_view(), wanted@) == first_named(
                        backends.deep_view().subrange(i as int, backends.len() as int),
                        wanted@,
                    ),
                decreases backends.len() - i,
            {
                let ghost rest = backends.deep_view().subrange(i as int, backends.len() as int);
                assert(rest[0] == backends.deep_view()[i as int]);
                assert(backends.deep_view()[i as int] == (
                    backends@[i as int].0@,
                    backends@[i as int].1,
                ));
                assert(rest.drop_first() =~= backends.deep_view().subrange(
                    i + 1,
                    backends.len() as int,
                ));
                if backends[i].0 == wanted_name {
                    return Some(backends[i].1);
                }
                i = i + 1;
            }
            None
        },
        None => Some(backends[0].1),
    }
}

} // verus!
