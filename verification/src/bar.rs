//! The bar: the rendered widgets of all the running modules.
use vstd::prelude::*;

use crate::bridge::Request;
use crate::config::GeneralConfig;
use crate::output::{is_output_format_name, output_format_of, output_formatter, OutputFormat, OutputFormatter};
use crate::protocol::Block;
use crate::widget::Widget;

verus! {

/// A rendered widget: nothing yet, a text, or an i3bar block.
#[derive(Debug)]
pub enum RenderedWidget {
    Empty,
    Text(String),
    I3Block(Block),
}

impl Clone for RenderedWidget {
    fn clone(&self) -> (res: RenderedWidget)
        ensures
            res == *self,
    {
        match self {
            RenderedWidget::Empty => RenderedWidget::Empty,
            RenderedWidget::Text(t) => RenderedWidget::Text(t.clone()),
            RenderedWidget::I3Block(b) => RenderedWidget::I3Block(b.clone()),
        }
    }
}

impl Default for RenderedWidget {
    fn default() -> (res: RenderedWidget)
        ensures
            res is Empty,
    {
        RenderedWidget::Empty
    }
}

} // verus!

verus! {

/// The state of the bar: the general settings, the output format, and for
/// each module that was added, in order, its name, its id and its last
/// rendered widget.
pub struct Bar {
    general_config: GeneralConfig,
    output_format: OutputFormat,
    modules: Vec<(String, usize, RenderedWidget)>,
}

impl Bar {
    /// The general settings.
    pub closed spec fn config(self) -> GeneralConfig {
        self.general_config
    }

    /// The output format.
    pub closed spec fn format(self) -> OutputFormat {
        self.output_format
    }

    /// The name and id of each module, in the order in which they were added.
    pub closed spec fn modules(self) -> Seq<(String, usize)> {
        self.modules@.map_values(|m: (String, usize, RenderedWidget)| (m.0, m.1))
    }

    /// The last rendered widget of each module.
    pub closed spec fn rendered(self) -> Seq<RenderedWidget> {
        self.modules@.map_values(|m: (String, usize, RenderedWidget)| m.2)
    }

    /// There is a rendered widget for each module.
    pub proof fn lemma_rendered_len(self)
        ensures
            self.rendered().len() == self.modules().len(),
    {
    }

    /// A bar with no modules that writes in the output format of
    /// `general_config`, which must name one.
    pub fn new(general_config: GeneralConfig) -> (res: Bar)
        requires
            is_output_format_name(general_config.output_format@),
        ensures
            res.config() == general_config,
            res.format() == output_format_of(general_config.output_format@),
            res.modules().len() == 0,
            res.rendered().len() == 0,
    {
        let output_format = output_formatter(general_config.output_format.as_str());
        Bar { general_config, output_format, modules: Vec::new() }
    }

    /// Records a module named `name` with the id `id`, with nothing rendered
    /// for it yet.
    pub fn add_module(&mut self, name: String, id: usize)
        ensures
            final(self).config() == old(self).config(),
            final(self).format() == old(self).format(),
            final(self).modules() == old(self).modules().push((name, id)),
            final(self).rendered() == old(self).rendered().push(RenderedWidget::Empty),
    {
        self.modules.push((name, id, RenderedWidget::Empty));
        assert(self.modules() =~= old(self).modules().push((name, id)));
        assert(self.rendered() =~= old(self).rendered().push(RenderedWidget::Empty));
    }

    /// Handles a request: the widget of the module at position `id` is
    /// named after the module and rendered in the output format; the other
    /// rendered widgets stay.
    pub fn process_request(&mut self, request: Request)
        requires
            match request {
                Request::SetWidget { id, widget: _ } => id < old(self).modules().len(),
            },
        ensures
            final(self).config() == old(self).config(),
            final(self).format() == old(self).format(),
            final(self).modules() == old(self).modules(),
            match request {
                Request::SetWidget { id, widget } => {
                    &&& final(self).rendered().len() == old(self).rendered().len()
                    &&& forall|i: int| 0 <= i < old(self).rendered().len() && i != id ==> final(self).rendered()[i]
                        == old(self).rendered()[i]
                    &&& old(self).format().renders(
                        old(self).config(),
                        Widget { name: old(self).modules()[id as int].0, ..widget },
                        final(self).rendered()[id as int],
                    )
                },
            },
    {
        match request {
            Request::SetWidget { id, widget } => {
                let name = self.modules[id].0.clone();
                let module_id = self.modules[id].1;
                let rendered = self.output_format.render_widget(&self.general_config, widget.with_name(name));
                let ghost r = rendered;
                let kept_name = self.modules[id].0.clone();
                self.modules.set(id, (kept_name, module_id, rendered));
                assert(self.modules() =~= old(self).modules());
                assert(self.rendered() =~= old(self).rendered().update(id as int, r));
            },
        }
    }

    /// The last rendered widget of each module, in order.
    pub fn rendered_widgets(&self) -> (res: Vec<RenderedWidget>)
        ensures
            res@ == self.rendered(),
    {
        let mut res: Vec<RenderedWidget> = Vec::new();
        let mut i: usize = 0;
        while i < self.modules.len()
            invariant
                i <= self.modules@.len(),
                res@ =~= self.rendered().take(i as int),
            decreases self.modules.len() - i,
        {
            res.push(self.modules[i].2.clone());
            assert(res@ =~= self.rendered().take(i + 1));
            i = i + 1;
        }
        assert(self.rendered().take(i as int) =~= self.rendered());
        res
    }

    /// The general settings.
    pub fn general_config(&self) -> (res: &GeneralConfig)
        ensures
            *res == self.config(),
    {
        &self.general_config
    }

    /// The output format.
    pub fn output_format(&self) -> (res: OutputFormat)
        ensures
            res == self.format(),
    {
        self.output_format
    }
}

} // verus!
