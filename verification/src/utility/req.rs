//! The key under which a record is stored.

use std::marker::PhantomData;
use vstd::prelude::*;
use vstd::string::*;

use crate::utility::text::has_char;
use crate::utility::text::lemma_split_append;
use crate::utility::text::push_char;
use crate::utility::text::split_seq;
use crate::utility::Result;
use crate::utility::ErrorView;

verus! {

/// The directory that holds every record.
pub const DIR: &'static str = "data";

/// The extension of every record's file.
pub const EXT: &'static str = "rmp";

/// The key of one record of type `T`: a directory below the store's root
/// and a name within it. Distinct records never share both.
#[derive(Debug)]
pub struct Req<T> {
    pub dir: String,
    pub key: String,
    pub marker: PhantomData<T>,
}

/// The mathematical value of a [`Req`].
pub ghost struct ReqView {
    pub dir: Seq<char>,
    pub key: Seq<char>,
}

impl<T> View for Req<T> {
    type V = ReqView;

    open spec fn view(&self) -> ReqView {
        ReqView { dir: self.dir@, key: self.key@ }
    }
}

impl ReqView {
    /// The directory of the record's file: `data/{dir}`.
    pub open spec fn dir_path(self) -> Seq<char> {
        "data"@ + seq!['/'] + self.dir
    }

    /// The record's file: `data/{dir}/{key}.rmp`.
    pub open spec fn path(self) -> Seq<char> {
        self.dir_path() + seq!['/'] + self.key + seq!['.'] + "rmp"@
    }
}

/// Records with different keys are kept in different files, as long as no
/// key holds a slash: a file's path tells the directory and the key.
pub proof fn lemma_path_injective(a: ReqView, b: ReqView)
    requires
        a.path() == b.path(),
        !has_char(a.key, '/'),
        !has_char(b.key, '/'),
    ensures
        a == b,
{
    reveal_strlit("rmp");
    reveal_strlit("data");
    let tail_a = a.key + seq!['.'] + "rmp"@;
    let tail_b = b.key + seq!['.'] + "rmp"@;
    assert forall|i: int| 0 <= i < tail_a.len() implies tail_a[i] != '/' by {
        if i < a.key.len() {
            assert(tail_a[i] == a.key[i]);
        }
    }
    assert forall|i: int| 0 <= i < tail_b.len() implies tail_b[i] != '/' by {
        if i < b.key.len() {
            assert(tail_b[i] == b.key[i]);
        }
    }
    assert(a.path() =~= a.dir_path().push('/') + tail_a);
    assert(b.path() =~= b.dir_path().push('/') + tail_b);
    lemma_split_append(a.dir_path(), tail_a, '/');
    lemma_split_append(b.dir_path(), tail_b, '/');
    let pieces_a = split_seq(a.dir_path(), '/').push(tail_a);
    let pieces_b = split_seq(b.dir_path(), '/').push(tail_b);
    assert(pieces_a == pieces_b);
    assert(pieces_a.last() == tail_a);
    assert(pieces_b.last() == tail_b);
    assert(tail_a == tail_b);
    assert(a.key =~= tail_a.take(tail_a.len() - 4));
    assert(b.key =~= tail_b.take(tail_b.len() - 4));
    assert(a.dir_path() =~= a.path().take(a.path().len() - tail_a.len() - 1));
    assert(b.dir_path() =~= b.path().take(b.path().len() - tail_b.len() - 1));
    assert(a.dir =~= a.dir_path().skip(5));
    assert(b.dir =~= b.dir_path().skip(5));
}

impl<T> Req<T> {
    /// The key `key` in the directory `dir`.
    pub fn new(dir: &str, key: &str) -> (req: Self)
        ensures
            req@ == (ReqView { dir: dir@, key: key@ }),
    {
        Req { dir: dir.to_owned(), key: key.to_owned(), marker: PhantomData }
    }

    /// The directory of the record's file.
    pub fn dir(&self) -> (path: String)
        ensures
            path@ == self@.dir_path(),
    {
        let mut path = String::from_str(DIR);
        let ghost root = path@;
        push_char(&mut path, '/');
        assert(path@ == root + seq!['/']);
        path.append(self.dir.as_str());
        path
    }

    /// The record's file.
    pub fn path(&self) -> (path: String)
        ensures
            path@ == self@.path(),
    {
        let mut path = self.dir();
        let ghost a = path@;
        push_char(&mut path, '/');
        assert(path@ == a + seq!['/']);
        path.append(self.key.as_str());
        let ghost b = path@;
        push_char(&mut path, '.');
        assert(path@ == b + seq!['.']);
        path.append(EXT);
        path
    }
}

/// A record type whose key follows from arguments of type `A`, where no
/// key may be derivable.
pub trait TryNewReq<A>: Sized {
    /// The key that the arguments name, or why there is none.
    spec fn try_req_spec(args: A) -> core::result::Result<ReqView, ErrorView>;

    /// The key of the record that `args` name.
    fn try_new_req(args: A) -> (r: Result<Req<Self>>)
        ensures
            match Self::try_req_spec(args) {
                Ok(v) => r matches Ok(req) && req@ == v,
                Err(e) => r matches Err(got) && got@ == e,
            },
    ;
}

/// A record type whose key follows from arguments of type `A`.
pub trait NewReq<A>: Sized {
    /// The key that the arguments name.
    spec fn req_spec(args: A) -> ReqView;

    /// The key of the record that `args` name.
    fn new_req(args: A) -> (req: Req<Self>)
        ensures
            req@ == Self::req_spec(args),
    ;
}

/// A record that knows its own key, given arguments of type `A`, where no
/// key may be derivable.
pub trait TryAsReq<A>: Sized {
    /// The record's key, or why there is none.
    spec fn try_as_req_spec(&self, args: A) -> core::result::Result<ReqView, ErrorView>;

    /// The record's own key.
    fn try_as_req(&self, args: A) -> (r: Result<Req<Self>>)
        ensures
            match self.try_as_req_spec(args) {
                Ok(v) => r matches Ok(req) && req@ == v,
                Err(e) => r matches Err(got) && got@ == e,
            },
    ;
}

/// A record that knows its own key, given arguments of type `A`.
pub trait AsReq<A>: Sized {
    /// The record's key.
    spec fn as_req_spec(&self, args: A) -> ReqView;

    /// The record's own key.
    fn as_req(&self, args: A) -> (req: Req<Self>)
        ensures
            req@ == self.as_req_spec(args),
    ;
}

impl<T: NewReq<A>, A> TryNewReq<A> for T {
    open spec fn try_req_spec(args: A) -> core::result::Result<ReqView, ErrorView> {
        Ok(T::req_spec(args))
    }

    fn try_new_req(args: A) -> (r: Result<Req<Self>>) {
        Ok(Self::new_req(args))
    }
}

impl<T: AsReq<A>, A> TryAsReq<A> for T {
    open spec fn try_as_req_spec(&self, args: A) -> core::result::Result<ReqView, ErrorView> {
        Ok(self.as_req_spec(args))
    }

    fn try_as_req(&self, args: A) -> (r: Result<Req<Self>>) {
        Ok(self.as_req(args))
    }
}

} // verus!
