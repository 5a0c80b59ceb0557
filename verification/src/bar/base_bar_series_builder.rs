//! Builds bar series.
use vstd::prelude::*;
use crate::bar::base_bar::{BaseBar, DecimalNumFactory};
use crate::bar::base_bar_series::{BaseBarSeries, SeriesView};
use crate::bar::builder::types::{BarBuilderFactories, TimeBarBuilderFactory};

verus! {

/// The settings of a bar series to build.
pub struct BaseBarSeriesBuilder {
    pub name: Option<String>,
    pub bars: Vec<BaseBar>,
    pub constrained: bool,
    pub max_bar_count: usize,
    pub num_factory: DecimalNumFactory,
    pub bar_builder_factory: Option<BarBuilderFactories>,
}

/// A copy of a vector of bars.
pub fn copy_bars(bars: &Vec<BaseBar>) -> (r: Vec<BaseBar>)
    ensures
        r@ == bars@,
{
    let mut r: Vec<BaseBar> = Vec::new();
    for i in 0..bars.len()
        invariant
            r@ == bars@.subrange(0, i as int),
    {
        r.push(bars[i]);
        proof {
            assert(r@ =~= bars@.subrange(0, i + 1));
        }
    }
    proof {
        assert(bars@.subrange(0, bars@.len() as int) =~= bars@);
    }
    r
}

/// The name given to a series that has none.
pub open spec fn default_series_name() -> Seq<char> {
    "unnamed_series"@
}

impl BaseBarSeriesBuilder {
    /// The series that `build` makes: its name (the default one if unset), its
    /// bars (the last `max_bar_count` of them), its indices and factories.
    pub open spec fn builds(self, s: SeriesView) -> bool {
        let n = self.bars@.len();
        let excess = if n > self.max_bar_count { n - self.max_bar_count } else { 0 };
        &&& s.name == (match self.name { Some(x) => x@, None => default_series_name() })
        &&& s.bars == self.bars@.subrange(excess as int, n as int)
        &&& s.removed_bars_count == excess
        &&& s.begin_index == (if n == 0 { None } else { Some(0usize) })
        &&& s.end_index == (if n == 0 { None } else { Some((n - 1) as usize) })
        &&& s.constrained == self.constrained
        &&& s.maximum_bar_count == self.max_bar_count
        &&& s.num_factory == self.num_factory
        &&& s.bar_builder_factory == (match self.bar_builder_factory {
            Some(f) => f,
            None => BarBuilderFactories::TimeBarFactory(TimeBarBuilderFactory),
        })
    }

    /// Named "unnamed_series", no bars, not constrained, no maximum bar count,
    /// and time bars.
    pub fn new() -> (r: BaseBarSeriesBuilder)
        ensures
            r.name matches Some(n) && n@ == default_series_name(),
            r.bars@.len() == 0,
            !r.constrained,
            r.max_bar_count == usize::MAX,
            r.bar_builder_factory == Some(BarBuilderFactories::TimeBarFactory(TimeBarBuilderFactory)),
    {
        let r = BaseBarSeriesBuilder {
            name: Some("unnamed_series".to_string()),
            bars: Vec::new(),
            constrained: false,
            max_bar_count: usize::MAX,
            num_factory: DecimalNumFactory::instance(),
            bar_builder_factory: Some(BarBuilderFactories::TimeBarFactory(TimeBarBuilderFactory::new())),
        };
        proof {
            reveal_strlit("unnamed_series");
        }
        r
    }

    pub fn with_name(self, name: String) -> (r: Self)
        ensures
            r == (BaseBarSeriesBuilder { name: Some(name), ..self }),
    {
        let mut r = self;
        r.name = Some(name);
        r
    }

    pub fn with_bars(self, bars: Vec<BaseBar>) -> (r: Self)
        ensures
            r == (BaseBarSeriesBuilder { bars, ..self }),
    {
        let mut r = self;
        r.bars = bars;
        r
    }

    pub fn with_constrained(self, constrained: bool) -> (r: Self)
        ensures
            r == (BaseBarSeriesBuilder { constrained, ..self }),
    {
        let mut r = self;
        r.constrained = constrained;
        r
    }

    pub fn with_max_bar_count(self, max_bar_count: usize) -> (r: Self)
        ensures
            r == (BaseBarSeriesBuilder { max_bar_count, ..self }),
    {
        let mut r = self;
        r.max_bar_count = max_bar_count;
        r
    }

    pub fn with_num_factory(self, num_factory: DecimalNumFactory) -> (r: Self)
        ensures
            r == (BaseBarSeriesBuilder { num_factory, ..self }),
    {
        let mut r = self;
        r.num_factory = num_factory;
        r
    }

    pub fn with_bar_builder_factory(self, bar_builder_factory: BarBuilderFactories) -> (r: Self)
        ensures
            r == (BaseBarSeriesBuilder { bar_builder_factory: Some(bar_builder_factory), ..self }),
    {
        let mut r = self;
        r.bar_builder_factory = Some(bar_builder_factory);
        r
    }

    pub fn set_name(&mut self, name: String) -> (r: &mut Self)
        ensures
            r.name == Some(name),
            r.bars == old(self).bars,
            r.constrained == old(self).constrained,
            r.max_bar_count == old(self).max_bar_count,
            r.bar_builder_factory == old(self).bar_builder_factory,
            *final(self) == *final(r),
    {
        self.name = Some(name);
        self
    }

    pub fn set_bars(&mut self, bars: Vec<BaseBar>) -> (r: &mut Self)
        ensures
            r.name == old(self).name,
            r.bars == bars,
            r.constrained == old(self).constrained,
            r.max_bar_count == old(self).max_bar_count,
            r.bar_builder_factory == old(self).bar_builder_factory,
            *final(self) == *final(r),
    {
        self.bars = bars;
        self
    }

    pub fn set_constrained(&mut self, constrained: bool) -> (r: &mut Self)
        ensures
            r.name == old(self).name,
            r.bars == old(self).bars,
            r.constrained == constrained,
            r.max_bar_count == old(self).max_bar_count,
            r.bar_builder_factory == old(self).bar_builder_factory,
            *final(self) == *final(r),
    {
        self.constrained = constrained;
        self
    }

    pub fn set_max_bar_count(&mut self, max_bar_count: usize) -> (r: &mut Self)
        ensures
            r.name == old(self).name,
            r.bars == old(self).bars,
            r.constrained == old(self).constrained,
            r.max_bar_count == max_bar_count,
            r.bar_builder_factory == old(self).bar_builder_factory,
            *final(self) == *final(r),
    {
        self.max_bar_count = max_bar_count;
        self
    }

    pub fn set_num_factory(&mut self, num_factory: DecimalNumFactory) -> (r: &mut Self)
        ensures
            r.name == old(self).name,
            r.bars == old(self).bars,
            r.constrained == old(self).constrained,
            r.max_bar_count == old(self).max_bar_count,
            r.bar_builder_factory == old(self).bar_builder_factory,
            r.num_factory == num_factory,
            *final(self) == *final(r),
    {
        self.num_factory = num_factory;
        self
    }

    pub fn set_bar_builder_factory(&mut self, bar_builder_factory: BarBuilderFactories) -> (r: &mut Self)
        ensures
            r.name == old(self).name,
            r.bars == old(self).bars,
            r.constrained == old(self).constrained,
            r.max_bar_count == old(self).max_bar_count,
            r.bar_builder_factory == Some(bar_builder_factory),
            *final(self) == *final(r),
    {
        self.bar_builder_factory = Some(bar_builder_factory);
        self
    }

    /// The series of these settings; an error when a maximum bar count is set
    /// on a constrained series or is zero.
    pub fn build(&self) -> (r: Result<BaseBarSeries, String>)
        ensures
            r is Ok <==> (self.max_bar_count == usize::MAX || (!self.constrained && self.max_bar_count > 0)),
            r matches Ok(s) ==> self.builds(s@) && s@.wf(),
    {
        let name = match &self.name {
            Some(n) => n.clone(),
            None => "unnamed_series".to_string(),
        };
        proof {
            reveal_strlit("unnamed_series");
        }
        let bar_builder_factory = match self.bar_builder_factory {
            Some(f) => f,
            None => BarBuilderFactories::TimeBarFactory(TimeBarBuilderFactory::new()),
        };
        let (begin_index, end_index) = if self.bars.len() == 0 {
            (None, None)
        } else {
            (Some(0), Some(self.bars.len() - 1))
        };
        let bars = copy_bars(&self.bars);
        let mut series = BaseBarSeries::new(
            name,
            bars,
            begin_index,
            end_index,
            self.constrained,
            self.num_factory,
            bar_builder_factory,
        )?;
        if self.max_bar_count != usize::MAX {
            series.set_maximum_bar_count(self.max_bar_count)?;
        }
        proof {
            let n = self.bars@.len();
            if self.max_bar_count == usize::MAX {
                assert(self.bars@.subrange(0, n as int) =~= self.bars@);
            }
        }
        Ok(series)
    }
}

impl Default for BaseBarSeriesBuilder {
    /// Like `new`, but with no bar builder factory set.
    fn default() -> (r: BaseBarSeriesBuilder)
        ensures
            r.name matches Some(n) && n@ == default_series_name(),
            r.bars@.len() == 0,
            !r.constrained,
            r.max_bar_count == usize::MAX,
            r.bar_builder_factory is None,
    {
        let r = BaseBarSeriesBuilder {
            name: Some("unnamed_series".to_string()),
            bars: Vec::new(),
            constrained: false,
            max_bar_count: usize::MAX,
            num_factory: DecimalNumFactory::instance(),
            bar_builder_factory: None,
        };
        proof {
            reveal_strlit("unnamed_series");
        }
        r
    }
}

} // verus!
