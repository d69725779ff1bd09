//! The library handle: what it owns, what it remembers, and when the
//! platform's loader has to act.

use crate::rtld::RtldValue;
use vstd::hash_map::StringHashMap;
use vstd::prelude::*;

verus! {

/// Whether `text` holds the terminator character, so that it cannot be
/// handed to the loader as a C string.
pub open spec fn has_nul(text: Seq<char>) -> bool {
    text.contains('\0')
}

/// Looks for the terminator character in `text`.
fn contains_nul(text: &str) -> (seen: bool)
    ensures
        seen == has_nul(text@),
{
    let mut seen = false;
    for c in it: text.chars()
        invariant
            it.seq() == text@,
            seen <==> exists|j: int| 0 <= j < it.index() && text@[j] == '\0',
    {
        if c == '\0' {
            seen = true;
        }
    }
    seen
}

/// What an address returned by the loader means to the caller: the null
/// address is absence.
pub open spec fn found(address: usize) -> Option<usize> {
    if address == 0 {
        None
    } else {
        Some(address)
    }
}

/// Why a library could not be opened.
#[derive(Clone, Copy, Debug, PartialEq, Eq, Structural)]
pub enum LoadError {
    /// The path cannot be encoded for the loader: it holds the terminator
    /// character. The loader was not asked.
    InvalidPath,
    /// The loader returned the null handle. It gives no cause.
    OpenFailed,
}

/// A load that is decided but not yet performed: the loader is to open
/// `name` with `mask`.
#[derive(Debug)]
pub struct OpenRequest {
    /// The path of the library. [`Library::open`] issues none that holds
    /// the terminator character.
    pub name: String,
    /// The native mask of the flags.
    pub mask: libc::c_int,
}

/// A symbol that the loader has to resolve in the library `handle`.
#[derive(Debug)]
pub struct SymRequest {
    /// The native handle of the library.
    pub handle: usize,
    /// The name of the symbol. [`Library::sym`] issues none that holds the
    /// terminator character.
    pub name: String,
}

impl SymRequest {
    /// The name to hand to the loader. The empty name is handed over as the
    /// null pointer, for which `None` stands.
    pub fn symbol(&self) -> (symbol: Option<&str>)
        ensures
            match symbol {
                Some(text) => text@ == self.name@ && self.name@.len() > 0,
                None => self.name@.len() == 0,
            },
    {
        let text = self.name.as_str();
        if text.is_empty() {
            None
        } else {
            Some(text)
        }
    }
}

/// What a lookup of a symbol comes to, as a mathematical value.
pub enum Lookup {
    /// The answer is known without the loader: an address, or absence.
    Done(Option<usize>),
    /// The loader has to resolve `name` in the library `handle`.
    Resolve { handle: usize, name: Seq<char> },
}

/// What [`Library::sym`] decides.
#[derive(Debug)]
pub enum SymStep {
    /// The answer is known without the loader: an address, or absence.
    Done(Option<usize>),
    /// The loader has to resolve the symbol; its answer goes to
    /// [`Library::resolved`].
    Resolve(SymRequest),
}

impl View for SymStep {
    type V = Lookup;

    open spec fn view(&self) -> Lookup {
        match self {
            SymStep::Done(answer) => Lookup::Done(*answer),
            SymStep::Resolve(request) => Lookup::Resolve {
                handle: request.handle,
                name: request.name@,
            },
        }
    }
}

/// What a [`Library`] stands for: the native handle (null is the address
/// 0), the path it was opened with, and the addresses found so far.
pub struct LibraryView {
    pub handle: usize,
    pub name: Seq<char>,
    pub table: Map<Seq<char>, usize>,
}

impl LibraryView {
    /// A library as it is right after it was made: nothing is cached.
    pub open spec fn fresh(handle: usize, name: Seq<char>) -> LibraryView {
        LibraryView { handle, name, table: Map::empty() }
    }

    /// What a lookup of `name` comes to. A cached name is answered from the
    /// cache. Otherwise a null handle or a name that cannot be encoded gives
    /// absence, and only what is left goes to the loader.
    pub open spec fn lookup(self, name: Seq<char>) -> Lookup {
        if self.table.contains_key(name) {
            Lookup::Done(found(self.table[name]))
        } else if self.handle == 0 || has_nul(name) {
            Lookup::Done(None)
        } else {
            Lookup::Resolve { handle: self.handle, name }
        }
    }

    /// The library after the loader has answered `address` for `name`: the
    /// answer is cached, null or not.
    pub open spec fn resolved(self, name: Seq<char>, address: usize) -> LibraryView {
        LibraryView { handle: self.handle, name: self.name, table: self.table.insert(name, address) }
    }

    /// The handle that the loader has to close when the library goes away:
    /// none if the handle is null.
    pub open spec fn to_close(self) -> Option<usize> {
        found(self.handle)
    }
}

/// A native handle with the addresses of the symbols that were asked for.
///
/// The library does not call the loader itself. It says what the loader has
/// to do ([`Library::open`], [`Library::sym`], [`Library::close`]) and takes
/// the loader's answer back ([`Library::new`], [`Library::resolved`]).
pub struct Library {
    pub(crate) handle: usize,
    pub(crate) name: String,
    pub(crate) table: StringHashMap<usize>,
}

impl View for Library {
    type V = LibraryView;

    closed spec fn view(&self) -> LibraryView {
        LibraryView { handle: self.handle, name: self.name@, table: self.table@ }
    }
}

impl Library {
    /// Decides a lookup of `name`, in this order: a cached name is answered
    /// from the cache; with a null handle the answer is absence; so it is
    /// for a name that holds the terminator character; any other name has
    /// to be resolved by the loader. The library is left as it is.
    pub fn sym(&self, name: String) -> (step: SymStep)
        ensures
            step@ == self@.lookup(name@),
    {
        match self.table.get(name.as_str()) {
            Some(address) => {
                let address: usize = *address;
                if address == 0 {
                    SymStep::Done(None)
                } else {
                    SymStep::Done(Some(address))
                }
            },
            None => {
                if self.handle == 0 {
                    SymStep::Done(None)
                } else if contains_nul(name.as_str()) {
                    SymStep::Done(None)
                } else {
                    SymStep::Resolve(SymRequest { handle: self.handle, name })
                }
            },
        }
    }

    /// Takes the loader's answer to `request`. The address is cached under
    /// the name whatever it is, so that the loader is not asked for this
    /// name again; the null address is returned as absence.
    pub fn resolved(&mut self, request: SymRequest, address: usize) -> (answer: Option<usize>)
        ensures
            final(self)@ == old(self)@.resolved(request.name@, address),
            answer == found(address),
    {
        self.table.insert(request.name, address);
        if address == 0 {
            None
        } else {
            Some(address)
        }
    }

    /// Decides a load of `name` with `flags`. A name that holds the
    /// terminator character is refused with [`LoadError::InvalidPath`], and
    /// the loader is not to be asked. Any other name is to be opened with
    /// the native mask of `flags`.
    pub fn open(name: String, flags: RtldValue) -> (result: Result<OpenRequest, LoadError>)
        ensures
            match result {
                Ok(request) => !has_nul(name@) && request.name@ == name@ && request.mask
                    == flags@.mask(),
                Err(error) => has_nul(name@) && error == LoadError::InvalidPath,
            },
    {
        if contains_nul(name.as_str()) {
            return Err(LoadError::InvalidPath);
        }
        let mask = flags.to_libc();
        Ok(OpenRequest { name, mask })
    }

    /// Takes the loader's answer to `request`. The null handle is
    /// [`LoadError::OpenFailed`], and no library is made. Any other handle
    /// is owned by the new library, whose cache is empty.
    pub fn new(request: OpenRequest, handle: usize) -> (result: Result<Library, LoadError>)
        ensures
            match result {
                Ok(library) => handle != 0 && library@ == LibraryView::fresh(handle, request.name@),
                Err(error) => handle == 0 && error == LoadError::OpenFailed,
            },
    {
        if handle == 0 {
            return Err(LoadError::OpenFailed);
        }
        Ok(Library { handle, name: request.name, table: StringHashMap::new() })
    }

    /// Wraps a handle that the caller got by other means, with the name to
    /// report for it. The handle may be null: such a library resolves
    /// nothing and closes nothing.
    pub fn from_raw(handle: usize, name: String) -> (library: Library)
        ensures
            library@ == LibraryView::fresh(handle, name@),
    {
        Library { handle, name, table: StringHashMap::new() }
    }

    /// Ends the library and says which handle the loader has to close:
    /// none if the handle is null. The library is consumed, so nothing can
    /// be asked of it afterwards and it cannot be closed twice.
    pub fn close(self) -> (handle: Option<usize>)
        ensures
            handle == self@.to_close(),
    {
        if self.handle == 0 {
            None
        } else {
            Some(self.handle)
        }
    }

    /// The native handle, as an address; 0 is the null handle.
    pub fn handle(&self) -> (handle: usize)
        ensures
            handle == self@.handle,
    {
        self.handle
    }

    /// The addresses found so far, by symbol name. A null address records
    /// that the loader did not find the symbol.
    pub fn table(&self) -> (table: &StringHashMap<usize>)
        ensures
            table@ == self@.table,
    {
        &self.table
    }

    /// The path that the library was opened with.
    pub fn name(&self) -> (name: String)
        ensures
            name@ == self@.name,
    {
        self.name.clone()
    }
}

/// The loader is asked for a name once. A library with a handle asks it for
/// a name that can be encoded and is not cached; once the answer is
/// recorded, a lookup of that name is answered from the cache with the same
/// answer, and absence is remembered like an address.
pub proof fn lemma_loader_is_asked_once(library: LibraryView, name: Seq<char>, address: usize)
    requires
        library.handle != 0,
        !has_nul(name),
        !library.table.contains_key(name),
    ensures
        library.lookup(name) == (Lookup::Resolve { handle: library.handle, name }),
        library.resolved(name, address).lookup(name) == Lookup::Done(found(address)),
        address == 0 ==> library.resolved(name, address).lookup(name) == Lookup::Done(None),
{
}

/// The cache only grows: recording an answer for one name removes no name
/// from it and changes the lookup of no other name.
pub proof fn lemma_cache_only_grows(
    library: LibraryView,
    name: Seq<char>,
    address: usize,
    other: Seq<char>,
)
    ensures
        library.table.contains_key(other) ==> library.resolved(name, address).table.contains_key(
            other,
        ),
        other != name ==> library.resolved(name, address).lookup(other) == library.lookup(other),
{
}

/// A library without a handle never asks the loader and has nothing to
/// close.
pub proof fn lemma_null_handle_is_inert(library: LibraryView, name: Seq<char>)
    requires
        library.handle == 0,
    ensures
        library.lookup(name) is Done,
        library.to_close() is None,
{
}

} // verus!
