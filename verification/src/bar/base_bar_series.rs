//! A series of bars with global indices: bars removed from the front (to keep
//! at most a maximum number) keep their indices counted.
use vstd::prelude::*;
use crate::bar::base_bar::{BaseBar, DecimalNumFactory};
use crate::bar::builder::types::{BarBuilderFactories, BarBuilders, creates_builder};

verus! {

/// What a bar series holds.
pub struct SeriesView {
    pub name: Seq<char>,
    pub bars: Seq<BaseBar>,
    pub begin_index: Option<usize>,
    pub end_index: Option<usize>,
    pub constrained: bool,
    pub maximum_bar_count: usize,
    pub removed_bars_count: usize,
    pub num_factory: DecimalNumFactory,
    pub bar_builder_factory: BarBuilderFactories,
}

impl SeriesView {
    /// The bars held are those of global indices `removed_bars_count` to
    /// `end_index`; there are at most `maximum_bar_count` (at least 1) of them.
    pub open spec fn wf(self) -> bool {
        &&& self.maximum_bar_count >= 1
        &&& self.bars.len() <= self.maximum_bar_count
        &&& if self.bars.len() == 0 {
            self.begin_index is None && self.end_index is None && self.removed_bars_count == 0
        } else {
            &&& self.begin_index matches Some(b) && b <= self.end_index.unwrap()
            &&& self.end_index matches Some(e) && e + 1 == self.removed_bars_count + self.bars.len()
        }
    }

    /// Number of bars between the begin index (or the first bar still held) and
    /// the end index.
    pub open spec fn bar_count(self) -> nat {
        match (self.begin_index, self.end_index) {
            (Some(b), Some(e)) => {
                let first = if self.removed_bars_count > b { self.removed_bars_count as int } else { b as int };
                (e - first + 1) as nat
            },
            _ => 0,
        }
    }

    /// The bar of global index `i`: an index of a removed bar gives the first
    /// bar still held; an index past the end gives nothing.
    pub open spec fn bar_at(self, i: int) -> Option<BaseBar> {
        let inner = i - self.removed_bars_count;
        if i < 0 {
            None
        } else if inner < 0 {
            if self.bars.len() == 0 { None } else { Some(self.bars[0]) }
        } else if inner >= self.bars.len() {
            None
        } else {
            Some(self.bars[inner])
        }
    }

    /// `post` is `self` with `bar` appended and the oldest bars removed beyond the maximum.
    pub open spec fn appended(self, bar: BaseBar, post: Self) -> bool {
        let all = self.bars.push(bar);
        let excess = if all.len() > self.maximum_bar_count { all.len() - self.maximum_bar_count } else { 0 };
        &&& post.bars == all.subrange(excess as int, all.len() as int)
        &&& post.removed_bars_count == self.removed_bars_count + excess
        &&& post.begin_index == (if self.begin_index is None { Some(0usize) } else { self.begin_index })
        &&& post.end_index == Some((if self.end_index is None { 0 } else { self.end_index.unwrap() + 1 }) as usize)
        &&& post.name == self.name
        &&& post.constrained == self.constrained
        &&& post.maximum_bar_count == self.maximum_bar_count
        &&& post.bar_builder_factory == self.bar_builder_factory
    }

    /// `post` holds the bars of `self` and possibly more after them, and no bar
    /// of either has been removed.
    pub open spec fn grows_to(self, post: Self) -> bool {
        &&& self.removed_bars_count == 0
        &&& post.removed_bars_count == 0
        &&& self.bars.len() <= post.bars.len()
        &&& forall|i: int| 0 <= i < self.bars.len() ==> #[trigger] post.bars[i] == self.bars[i]
    }

    /// A bar can be appended: it ends after the last bar.
    pub open spec fn accepts(self, bar: BaseBar) -> bool {
        self.bars.len() == 0 || bar.end_time > self.bars.last().end_time
    }
}

/// Appending a bar to a series keeps it well formed, makes the bar the one at
/// the new end index, keeps every other bar still held at its index, and
/// holds at most the maximum bar count of bars.
pub proof fn law_append_keeps_bars(s: SeriesView, bar: BaseBar, post: SeriesView)
    requires
        s.wf(),
        s.end_index matches Some(e) ==> e < usize::MAX,
        s.appended(bar, post),
    ensures
        post.bars.len() <= post.maximum_bar_count,
        post.bars.len() == (if s.bars.len() + 1 <= s.maximum_bar_count { s.bars.len() + 1 } else { s.maximum_bar_count as nat }),
        post.bars.last() == bar,
        post.end_index matches Some(e) && post.bar_at(e as int) == Some(bar),
        forall|g: int| post.removed_bars_count <= g && (s.end_index matches Some(e) && g <= e)
            ==> #[trigger] post.bar_at(g) == s.bar_at(g),
{
    let all = s.bars.push(bar);
    let excess = if all.len() > s.maximum_bar_count { all.len() - s.maximum_bar_count } else { 0 };
    assert(excess <= 1);
    assert(post.bars.last() == all.last());
    let pe = post.end_index.unwrap();
    assert(post.bars.len() == all.len() - excess);
    if s.bars.len() == 0 {
        assert(s.end_index is None);
        assert(pe == 0);
        assert(excess == 0);
    } else {
        assert(s.end_index.unwrap() + 1 == s.removed_bars_count + s.bars.len());
        assert(pe == s.end_index.unwrap() + 1);
    }
    assert(pe - post.removed_bars_count == post.bars.len() - 1);
    assert(post.bars[pe - post.removed_bars_count] == post.bars.last());
    assert forall|g: int| post.removed_bars_count <= g && (s.end_index matches Some(e) && g <= e)
        implies #[trigger] post.bar_at(g) == s.bar_at(g) by {
        let e = s.end_index.unwrap();
        assert(g - post.removed_bars_count < post.bars.len());
        assert(post.bars[g - post.removed_bars_count] == all[g - post.removed_bars_count + excess]);
        assert(g - s.removed_bars_count >= 0);
        assert(g - s.removed_bars_count < s.bars.len());
    }
}

/// Appending a bar without removing one grows the series.
pub proof fn law_append_grows(s: SeriesView, bar: BaseBar, post: SeriesView)
    requires
        s.wf(),
        s.appended(bar, post),
        post.removed_bars_count == 0,
    ensures
        s.grows_to(post),
{
    let all = s.bars.push(bar);
    assert(post.bars =~= all);
}

/// A grown series has the same bars at the indices of the first.
pub proof fn lemma_grown_bars(s: SeriesView, post: SeriesView, g: int)
    requires
        s.wf(),
        post.wf(),
        s.grows_to(post),
        0 <= g < s.bars.len(),
    ensures
        post.bar_at(g) == s.bar_at(g),
        s.bar_at(g) == Some(s.bars[g]),
{
}

/// A series of bars.
pub struct BaseBarSeries {
    name: String,
    bars: Vec<BaseBar>,
    begin_index: Option<usize>,
    end_index: Option<usize>,
    constrained: bool,
    maximum_bar_count: usize,
    removed_bars_count: usize,
    num_factory: DecimalNumFactory,
    bar_builder_factory: BarBuilderFactories,
}

impl View for BaseBarSeries {
    type V = SeriesView;

    closed spec fn view(&self) -> SeriesView {
        SeriesView {
            name: self.name@,
            bars: self.bars@,
            begin_index: self.begin_index,
            end_index: self.end_index,
            constrained: self.constrained,
            maximum_bar_count: self.maximum_bar_count,
            removed_bars_count: self.removed_bars_count,
            num_factory: self.num_factory,
            bar_builder_factory: self.bar_builder_factory,
        }
    }
}

impl BaseBarSeries {
    /// A series of the given bars; the indices must be `None` for no bars, or
    /// `Some(begin) <= Some(bars.len() - 1) == end` otherwise.
    pub fn new(
        name: String,
        bars: Vec<BaseBar>,
        begin_index: Option<usize>,
        end_index: Option<usize>,
        constrained: bool,
        num_factory: DecimalNumFactory,
        bar_builder_factory: BarBuilderFactories,
    ) -> (r: Result<BaseBarSeries, String>)
        ensures
            r is Ok <==> (if bars@.len() == 0 {
                begin_index is None && end_index is None
            } else {
                begin_index matches Some(b) && end_index matches Some(e) && b <= e && e + 1 == bars@.len()
            }),
            r matches Ok(s) ==> s@ == (SeriesView {
                name: name@,
                bars: bars@,
                begin_index,
                end_index,
                constrained,
                maximum_bar_count: usize::MAX,
                removed_bars_count: 0,
                num_factory,
                bar_builder_factory,
            }),
            r matches Ok(s) ==> s@.wf(),
    {
        let ok = if bars.len() == 0 {
            begin_index.is_none() && end_index.is_none()
        } else {
            match (begin_index, end_index) {
                (Some(b), Some(e)) => b <= e && e == bars.len() - 1,
                _ => false,
            }
        };
        if !ok {
            return Err("Inconsistent begin and end indices".to_string());
        }
        Ok(BaseBarSeries {
            name,
            bars,
            begin_index,
            end_index,
            constrained,
            maximum_bar_count: usize::MAX,
            removed_bars_count: 0,
            num_factory,
            bar_builder_factory,
        })
    }

    pub fn get_name(&self) -> (r: &str)
        ensures
            r@ == self@.name,
    {
        self.name.as_str()
    }

    pub fn num_factory(&self) -> (r: DecimalNumFactory)
        ensures
            r == self@.num_factory,
    {
        self.num_factory
    }

    pub fn factory_ref(&self) -> (r: &DecimalNumFactory)
        ensures
            *r == self@.num_factory,
    {
        &self.num_factory
    }

    pub fn get_bar_builder_factory(&self) -> (r: BarBuilderFactories)
        ensures
            r == self@.bar_builder_factory,
    {
        self.bar_builder_factory
    }

    /// The bars held (from the first not removed to the last).
    pub fn get_bar_data(&self) -> (r: &[BaseBar])
        ensures
            r@ == self@.bars,
    {
        self.bars.as_slice()
    }

    pub fn get_begin_index(&self) -> (r: Option<usize>)
        ensures
            r == self@.begin_index,
    {
        self.begin_index
    }

    pub fn get_end_index(&self) -> (r: Option<usize>)
        ensures
            r == self@.end_index,
    {
        self.end_index
    }

    pub fn is_empty(&self) -> (r: bool)
        ensures
            r == (self@.bars.len() == 0),
    {
        self.bars.len() == 0
    }

    pub fn get_maximum_bar_count(&self) -> (r: usize)
        ensures
            r == self@.maximum_bar_count,
    {
        self.maximum_bar_count
    }

    pub fn get_removed_bars_count(&self) -> (r: usize)
        ensures
            r == self@.removed_bars_count,
    {
        self.removed_bars_count
    }

    pub fn is_constrained(&self) -> (r: bool)
        ensures
            r == self@.constrained,
    {
        self.constrained
    }

    pub fn get_bar_count(&self) -> (r: usize)
        requires
            self@.wf(),
        ensures
            r == self@.bar_count(),
    {
        match (self.begin_index, self.end_index) {
            (Some(b), Some(e)) => {
                let first = if self.removed_bars_count > b { self.removed_bars_count } else { b };
                e - first + 1
            },
            _ => 0,
        }
    }

    /// The bar of global index `index` (see `SeriesView::bar_at`).
    pub fn get_bar(&self, index: usize) -> (r: Option<&BaseBar>)
        requires
            self@.wf(),
        ensures
            r is Some <==> self@.bar_at(index as int) is Some,
            r matches Some(b) ==> self@.bar_at(index as int) == Some(*b),
    {
        if index < self.removed_bars_count {
            if self.bars.len() == 0 {
                None
            } else {
                Some(&self.bars[0])
            }
        } else {
            let inner = index - self.removed_bars_count;
            if inner >= self.bars.len() {
                None
            } else {
                Some(&self.bars[inner])
            }
        }
    }

    pub fn get_first_bar(&self) -> (r: Option<&BaseBar>)
        ensures
            r is Some <==> self@.bars.len() > 0,
            r matches Some(b) ==> *b == self@.bars[0],
    {
        if self.bars.len() == 0 {
            None
        } else {
            Some(&self.bars[0])
        }
    }

    pub fn get_last_bar(&self) -> (r: Option<&BaseBar>)
        ensures
            r is Some <==> self@.bars.len() > 0,
            r matches Some(b) ==> *b == self@.bars.last(),
    {
        if self.bars.len() == 0 {
            None
        } else {
            Some(&self.bars[self.bars.len() - 1])
        }
    }

    /// Removes the oldest bars beyond the maximum bar count.
    fn remove_exceeding_bars(&mut self)
        requires
            old(self)@.maximum_bar_count >= 1,
            old(self)@.removed_bars_count + old(self)@.bars.len() <= usize::MAX + 1,
        ensures
            ({
                let pre = old(self)@;
                let excess = if pre.bars.len() > pre.maximum_bar_count {
                    pre.bars.len() - pre.maximum_bar_count
                } else {
                    0
                };
                &&& final(self)@ == (SeriesView {
                    bars: pre.bars.subrange(excess as int, pre.bars.len() as int),
                    removed_bars_count: (pre.removed_bars_count + excess) as usize,
                    ..pre
                })
            }),
    {
        let bar_count = self.bars.len();
        if bar_count > self.maximum_bar_count {
            let nb_bars_to_remove = bar_count - self.maximum_bar_count;
            let mut kept: Vec<BaseBar> = Vec::new();
            let mut i: usize = nb_bars_to_remove;
            while i < bar_count
                invariant
                    nb_bars_to_remove <= i <= bar_count,
                    bar_count == self.bars@.len(),
                    kept@ == self.bars@.subrange(nb_bars_to_remove as int, i as int),
                decreases bar_count - i,
            {
                kept.push(self.bars[i]);
                i = i + 1;
                proof {
                    assert(kept@ =~= self.bars@.subrange(nb_bars_to_remove as int, i as int));
                }
            }
            self.bars = kept;
            self.removed_bars_count = self.removed_bars_count + nb_bars_to_remove;
        } else {
            proof {
                assert(self.bars@.subrange(0, bar_count as int) =~= self.bars@);
            }
        }
    }

    /// Appends a bar that ends after the last one (an error otherwise), then
    /// removes the oldest bars beyond the maximum bar count.
    pub fn add_bar(&mut self, bar: BaseBar) -> (r: Result<(), String>)
        requires
            old(self)@.wf(),
            old(self)@.end_index matches Some(e) ==> e < usize::MAX,
        ensures
            r is Ok <==> old(self)@.accepts(bar),
            r is Ok ==> old(self)@.appended(bar, final(self)@),
            r is Err ==> final(self)@ == old(self)@,
            final(self)@.wf(),
    {
        if self.bars.len() > 0 {
            let last_end = self.bars[self.bars.len() - 1].end_time;
            if !(bar.end_time > last_end) {
                return Err("Cannot add a bar with end time not after the previous bar's end time".to_string());
            }
        }
        let ghost pre = self@;
        self.bars.push(bar);
        if self.begin_index.is_none() {
            self.begin_index = Some(0);
        }
        self.end_index = match self.end_index {
            Some(e) => Some(e + 1),
            None => Some(0),
        };
        self.remove_exceeding_bars();
        proof {
            let all = pre.bars.push(bar);
            if all.len() > pre.maximum_bar_count {
                assert(all.len() - pre.maximum_bar_count == 1);
            }
        }
        Ok(())
    }

    /// Sets the maximum number of bars kept and removes the oldest beyond it;
    /// an error for a constrained series or a maximum of zero.
    pub fn set_maximum_bar_count(&mut self, maximum_bar_count: usize) -> (r: Result<(), String>)
        requires
            old(self)@.wf(),
        ensures
            r is Ok <==> (!old(self)@.constrained && maximum_bar_count > 0),
            r is Err ==> final(self)@ == old(self)@,
            r is Ok ==> ({
                let pre = old(self)@;
                let excess = if pre.bars.len() > maximum_bar_count {
                    pre.bars.len() - maximum_bar_count
                } else {
                    0
                };
                final(self)@ == (SeriesView {
                    bars: pre.bars.subrange(excess as int, pre.bars.len() as int),
                    removed_bars_count: (pre.removed_bars_count + excess) as usize,
                    maximum_bar_count,
                    ..pre
                })
            }),
            final(self)@.wf(),
    {
        if self.constrained {
            return Err("Cannot set a maximum bar count on a constrained bar series".to_string());
        }
        if maximum_bar_count == 0 {
            return Err("Maximum bar count must be strictly positive".to_string());
        }
        self.maximum_bar_count = maximum_bar_count;
        self.remove_exceeding_bars();
        Ok(())
    }

    /// A new bar builder of the kind that the series' factory makes.
    pub fn bar_builder(&self) -> (r: BarBuilders)
        ensures
            creates_builder(self@.bar_builder_factory, r),
    {
        self.bar_builder_factory.create_bar_builder(self.num_factory)
    }
}

} // verus!
