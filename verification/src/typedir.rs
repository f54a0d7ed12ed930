//! Strongly typed directory structures.
//!
//! A directory layout is a graph of node types. A path handle is tagged with
//! the node it points at, and the only way to obtain a handle for a child node
//! is to extend a handle of its declared parent by the declared link.

use std::marker::PhantomData;
use vstd::prelude::*;
use vstd::string::StringExecFns;

verus! {

/// The character that separates the segments of a path.
pub const SEPARATOR: char = '/';

/// A vertex of the directory schema.
pub trait Node: Sized {

}

/// The value that selects one child of a node. Fixed children are linked by
/// `()`, parametric children by the value their segment is computed from.
pub trait Link {

}

impl<T> Link for T {

}

/// Declares that `Self` is reached from the parent node `P` through a link `L`.
pub trait Child<P: Node, L: Link>: Node {
    /// The path segment that the link stands for.
    spec fn segment(l: &L) -> Seq<char>;

    /// The path segment that the link stands for.
    fn link<'a>(l: &'a L) -> (s: &'a str)
        ensures
            s@ == Self::segment(l),
    ;
}

/// The path `base` followed by every one of `links`, each after a separator.
pub open spec fn join_links(base: Seq<char>, links: Seq<Seq<char>>) -> Seq<char>
    decreases links.len(),
{
    if links.len() == 0 {
        base
    } else {
        join_links(base, links.drop_last()) + seq![SEPARATOR] + links.last()
    }
}

/// Extending by one more link appends a separator and that link's segment.
pub proof fn lemma_join_links_push(base: Seq<char>, links: Seq<Seq<char>>, link: Seq<char>)
    ensures
        join_links(base, links.push(link)) == join_links(base, links) + seq![SEPARATOR] + link,
{
    assert(links.push(link).drop_last() =~= links);
}

/// The buffer behind a path handle: where the path starts, and the stack of
/// segments pushed onto it since.
#[derive(Debug)]
pub struct PathData {
    base: String,
    links: Vec<String>,
}

impl PathData {
    /// The path that the buffer started from.
    pub closed spec fn base(&self) -> Seq<char> {
        self.base@
    }

    /// The segments pushed since, oldest first.
    pub closed spec fn links(&self) -> Seq<Seq<char>> {
        Seq::new(self.links@.len(), |i: int| self.links@[i]@)
    }

    /// The whole path as text.
    pub open spec fn path(&self) -> Seq<char> {
        join_links(self.base(), self.links())
    }

    fn new(base: &str) -> (out: Self)
        ensures
            out.base() == base@,
            out.links() == Seq::<Seq<char>>::empty(),
    {
        let out = PathData { base: String::from_str(base), links: Vec::new() };
        assert(out.links() =~= Seq::<Seq<char>>::empty());
        out
    }

    fn push(&mut self, segment: &str)
        ensures
            final(self).base() == old(self).base(),
            final(self).links() == old(self).links().push(segment@),
    {
        self.links.push(String::from_str(segment));
        assert(self.links() =~= old(self).links().push(segment@));
    }

    fn pop(&mut self)
        requires
            old(self).links().len() > 0,
        ensures
            final(self).base() == old(self).base(),
            final(self).links() == old(self).links().drop_last(),
    {
        self.links.pop();
        assert(self.links() =~= old(self).links().drop_last());
    }

    fn duplicate(&self) -> (out: Self)
        ensures
            out.base() == self.base(),
            out.links() == self.links(),
    {
        let mut links: Vec<String> = Vec::new();
        let mut i: usize = 0;
        while i < self.links.len()
            invariant
                i <= self.links@.len(),
                links@.len() == i,
                forall|j: int| 0 <= j < i ==> links@[j]@ == self.links@[j]@,
            decreases self.links@.len() - i,
        {
            links.push(self.links[i].clone());
            i += 1;
        }
        let out = PathData { base: self.base.clone(), links };
        assert(out.links() =~= self.links());
        out
    }

    /// The whole path as text.
    pub fn render(&self) -> (out: String)
        ensures
            out@ == self.path(),
    {
        let mut out = self.base.clone();
        let mut i: usize = 0;
        while i < self.links.len()
            invariant
                i <= self.links@.len(),
                out@ == join_links(self.base(), self.links().take(i as int)),
            decreases self.links@.len() - i,
        {
            proof {
                let taken = self.links().take(i as int);
                lemma_join_links_push(self.base(), taken, self.links()[i as int]);
                assert(self.links().take(i + 1) =~= taken.push(self.links()[i as int]));
            }
            out.append("/");
            out.append(self.links[i].as_str());
            proof {
                reveal_strlit("/");
                assert("/"@ =~= seq![SEPARATOR]);
            }
            i += 1;
        }
        assert(self.links().take(i as int) =~= self.links());
        out
    }
}

/// Read access to the path behind a handle for the node `N`.
pub trait AsPath<N: Node>: Sized {
    /// The segments pushed onto the handle's buffer, oldest first.
    spec fn links(&self) -> Seq<Seq<char>>;

    /// The path as text.
    spec fn path(&self) -> Seq<char>;

    /// The path as text.
    fn to_path_string(&self) -> (out: String)
        ensures
            out@ == self.path(),
    ;
}

/// Extension of a path handle by a link, which gives a handle of type `T`.
pub trait Extend<L: Link, T>: Sized {
    /// Whether `out` is what extending `self` by `link` gives.
    spec fn extends_to(self, link: L, out: T) -> bool;

    /// Follows `link` from the node of `self` to the child it leads to.
    fn extend(self, link: L) -> (out: T)
        ensures
            self.extends_to(link, out),
    ;
}

/// A handle that scoped extensions can be made from. Its depth is the number
/// of scoped extensions that are open on the buffer it holds.
pub trait Scope: Sized {
    /// The number of scoped extensions that a handle of this type has open.
    spec fn depth() -> nat;
}

/// An owned path to the node `N`.
#[derive(Debug)]
pub struct PathBuf<N: Node> {
    data: PathData,
    m: PhantomData<N>,
}

/// A scoped path to the node `N`, made by extending the handle `P`, which it
/// holds on to. Releasing it pops the segment it pushed and gives `P` back.
#[derive(Debug)]
pub struct PathRef<N: Node, P: Scope> {
    data: PathData,
    m: PhantomData<N>,
    parent: PhantomData<P>,
}

impl<N: Node> PathBuf<N> {
    /// The buffer behind the handle.
    pub closed spec fn data(&self) -> PathData {
        self.data
    }

    /// The path as text.
    pub open spec fn view(&self) -> Seq<char> {
        self.data().path()
    }

    /// A handle for the node `N` at `path`. The marker value is the proof
    /// that the caller may name the node.
    pub fn new(_m: N, path: &str) -> (out: Self)
        ensures
            out@ == path@,
            out.data().base() == path@,
            out.data().links() == Seq::<Seq<char>>::empty(),
    {
        PathBuf { data: PathData::new(path), m: PhantomData }
    }

    /// A second handle to the same path.
    pub fn clone(&self) -> (out: Self)
        ensures
            out.data().base() == self.data().base(),
            out.data().links() == self.data().links(),
            out@ == self@,
    {
        PathBuf { data: self.data.duplicate(), m: PhantomData }
    }
}

impl<N: Node> AsPath<N> for PathBuf<N> {
    open spec fn links(&self) -> Seq<Seq<char>> {
        self.data().links()
    }

    open spec fn path(&self) -> Seq<char> {
        self.data().path()
    }

    fn to_path_string(&self) -> (out: String) {
        self.data.render()
    }
}

impl<L: Link, P: Node, C: Child<P, L>> Extend<L, PathBuf<C>> for PathBuf<P> {
    open spec fn extends_to(self, link: L, out: PathBuf<C>) -> bool {
        &&& out.data().base() == self.data().base()
        &&& out.data().links() == self.data().links().push(C::segment(&link))
        &&& out@ == self@ + seq![SEPARATOR] + C::segment(&link)
    }

    fn extend(self, link: L) -> (out: PathBuf<C>) {
        let mut data = self.data;
        data.push(C::link(&link));
        proof {
            lemma_join_links_push(self.data.base(), self.data.links(), C::segment(&link));
        }
        PathBuf { data, m: PhantomData }
    }
}

impl<N: Node> Scope for PathBuf<N> {
    open spec fn depth() -> nat {
        0
    }
}

impl<N: Node, P: Scope> Scope for PathRef<N, P> {
    open spec fn depth() -> nat {
        P::depth() + 1
    }
}

impl<N: Node, P: Scope> PathRef<N, P> {
    /// The buffer holds one segment for every scoped extension that is open.
    #[verifier::type_invariant]
    spec fn holds_open_segments(self) -> bool {
        self.data.links().len() > P::depth()
    }

    /// The buffer behind the handle.
    pub closed spec fn data(&self) -> PathData {
        self.data
    }

    /// The path as text.
    pub open spec fn view(&self) -> Seq<char> {
        self.data().path()
    }
}

impl<N: Node, P: Scope> AsPath<N> for PathRef<N, P> {
    open spec fn links(&self) -> Seq<Seq<char>> {
        self.data().links()
    }

    open spec fn path(&self) -> Seq<char> {
        self.data().path()
    }

    fn to_path_string(&self) -> (out: String) {
        self.data.render()
    }
}

impl<L: Link, P: Node, C: Child<P, L>> Extend<L, PathRef<C, PathBuf<P>>> for PathBuf<P> {
    open spec fn extends_to(self, link: L, out: PathRef<C, PathBuf<P>>) -> bool {
        &&& out.data().base() == self.data().base()
        &&& out.data().links() == self.data().links().push(C::segment(&link))
        &&& out@ == self@ + seq![SEPARATOR] + C::segment(&link)
    }

    fn extend(self, link: L) -> (out: PathRef<C, PathBuf<P>>) {
        let mut data = self.data;
        data.push(C::link(&link));
        proof {
            lemma_join_links_push(self.data.base(), self.data.links(), C::segment(&link));
        }
        PathRef { data, m: PhantomData, parent: PhantomData }
    }
}

impl<L: Link, P: Node, Q: Scope, C: Child<P, L>> Extend<L, PathRef<C, PathRef<P, Q>>> for PathRef<
    P,
    Q,
> {
    open spec fn extends_to(self, link: L, out: PathRef<C, PathRef<P, Q>>) -> bool {
        &&& out.data().base() == self.data().base()
        &&& out.data().links() == self.data().links().push(C::segment(&link))
        &&& out@ == self@ + seq![SEPARATOR] + C::segment(&link)
    }

    fn extend(self, link: L) -> (out: PathRef<C, PathRef<P, Q>>) {
        proof {
            use_type_invariant(&self);
        }
        let mut data = self.data;
        data.push(C::link(&link));
        proof {
            lemma_join_links_push(self.data.base(), self.data.links(), C::segment(&link));
        }
        PathRef { data, m: PhantomData, parent: PhantomData }
    }
}

impl<N: Node, P: Node> PathRef<N, PathBuf<P>> {
    /// Ends the scope of this extension: pops the segment that it pushed and
    /// gives back the handle that it was made from.
    pub fn release(self) -> (out: PathBuf<P>)
        ensures
            self.data().links().len() > 0,
            out.data().base() == self.data().base(),
            out.data().links() == self.data().links().drop_last(),
    {
        proof {
            use_type_invariant(&self);
        }
        let mut data = self.data;
        data.pop();
        PathBuf { data, m: PhantomData }
    }
}

impl<N: Node, P: Node, Q: Scope> PathRef<N, PathRef<P, Q>> {
    /// Ends the scope of this extension: pops the segment that it pushed and
    /// gives back the handle that it was made from.
    pub fn release(self) -> (out: PathRef<P, Q>)
        ensures
            self.data().links().len() > 0,
            out.data().base() == self.data().base(),
            out.data().links() == self.data().links().drop_last(),
    {
        proof {
            use_type_invariant(&self);
        }
        let mut data = self.data;
        data.pop();
        PathRef { data, m: PhantomData, parent: PhantomData }
    }
}

/// The stack `links` after one scoped extension for each of `more`, in order.
pub open spec fn extended_links(links: Seq<Seq<char>>, more: Seq<Seq<char>>) -> Seq<Seq<char>>
    decreases more.len(),
{
    if more.len() == 0 {
        links
    } else {
        extended_links(links.push(more.first()), more.drop_first())
    }
}

/// The stack `links` after the `n` most recent scoped extensions were
/// released, the last one first.
pub open spec fn released_links(links: Seq<Seq<char>>, n: nat) -> Seq<Seq<char>>
    decreases n,
{
    if n == 0 {
        links
    } else {
        released_links(links.drop_last(), (n - 1) as nat)
    }
}

/// Every scoped extension leaves the earlier segments in place and adds one.
pub proof fn lemma_extended_links(links: Seq<Seq<char>>, more: Seq<Seq<char>>)
    ensures
        extended_links(links, more) == links + more,
    decreases more.len(),
{
    if more.len() == 0 {
        assert(links + more =~= links);
    } else {
        lemma_extended_links(links.push(more.first()), more.drop_first());
        assert(links.push(more.first()) + more.drop_first() =~= links + more);
    }
}

/// Stack discipline of scoped paths: after any number of scoped extensions,
/// releasing all of them in reverse order gives back the stack, and so the
/// path, from before the first of them. This holds of every prefix of a longer
/// run too, so also where the run is cut short.
pub proof fn lemma_scoped_extensions_unwind(
    base: Seq<char>,
    links: Seq<Seq<char>>,
    more: Seq<Seq<char>>,
)
    ensures
        released_links(extended_links(links, more), more.len()) == links,
        join_links(base, released_links(extended_links(links, more), more.len())) == join_links(
            base,
            links,
        ),
    decreases more.len(),
{
    lemma_extended_links(links, more);
    if more.len() > 0 {
        let shorter = more.drop_last();
        lemma_extended_links(links, shorter);
        assert((links + more).drop_last() =~= links + shorter);
        lemma_scoped_extensions_unwind(base, links, shorter);
    }
}

} // verus!
