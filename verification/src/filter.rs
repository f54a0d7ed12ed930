//! Filtering what the engine writes down to what it is recognised to say.

use crate::engines::{classified, classify, EngineInfo, EngineInfoView};
use crate::text::texts;
use vstd::prelude::*;

verus! {

/// Something that the output of a program was recognised to say.
pub trait InfoItem {

}

impl InfoItem for EngineInfo {

}

/// What the output of the engine was recognised to say, in order.
#[derive(Debug)]
pub struct Info {
    items: Vec<EngineInfo>,
}

/// The views of `items`, in order.
pub open spec fn info_views(items: Seq<EngineInfo>) -> Seq<EngineInfoView> {
    Seq::new(items.len(), |i: int| items[i]@)
}

/// What the lines `lines` are recognised to say, in the order of the lines.
pub open spec fn recognised(lines: Seq<Seq<char>>) -> Seq<EngineInfoView>
    decreases lines.len(),
{
    if lines.len() == 0 {
        Seq::empty()
    } else {
        recognised(lines.drop_last()) + (match classified(lines.last()) {
            Some(info) => seq![info],
            None => Seq::empty(),
        })
    }
}

impl View for Info {
    type V = Seq<EngineInfoView>;

    closed spec fn view(&self) -> Seq<EngineInfoView> {
        info_views(self.items@)
    }
}

impl Info {
    /// Nothing recognised yet.
    pub fn new() -> (out: Self)
        ensures
            out@ == Seq::<EngineInfoView>::empty(),
    {
        let out = Info { items: Vec::new() };
        assert(out@ =~= Seq::<EngineInfoView>::empty());
        out
    }

    /// Adds `item` after what was recognised before.
    pub fn push(&mut self, item: EngineInfo)
        ensures
            final(self)@ == old(self)@.push(item@),
    {
        self.items.push(item);
        assert(self@ =~= old(self)@.push(item@));
    }

    /// How many things were recognised.
    pub fn len(&self) -> (out: usize)
        ensures
            out == self@.len(),
    {
        self.items.len()
    }

    /// The `i`-th thing that was recognised.
    pub fn get(&self, i: usize) -> (out: &EngineInfo)
        requires
            i < self@.len(),
        ensures
            out@ == self@[i as int],
    {
        &self.items[i]
    }
}

/// Goes through the lines that the engine wrote and keeps what they are
/// recognised to say.
pub fn filter_errors(output: &Vec<String>) -> (out: Info)
    ensures
        out@ == recognised(texts(output@)),
{
    let mut info = Info::new();
    let mut i: usize = 0;
    assert(texts(output@).take(0) =~= Seq::<Seq<char>>::empty());
    while i < output.len()
        invariant
            i <= output@.len(),
            info@ == recognised(texts(output@).take(i as int)),
        decreases output@.len() - i,
    {
        proof {
            assert(texts(output@).take(i + 1).drop_last() =~= texts(output@).take(i as int));
            assert(texts(output@).take(i + 1).last() == output@[i as int]@);
        }
        match classify(output[i].as_str()) {
            Some(item) => {
                info.push(item);
                assert(info@ =~= recognised(texts(output@).take(i + 1)));
            },
            None => {
                assert(info@ =~= recognised(texts(output@).take(i + 1)));
            },
        }
        i += 1;
    }
    assert(texts(output@).take(i as int) =~= texts(output@));
    info
}

} // verus!
