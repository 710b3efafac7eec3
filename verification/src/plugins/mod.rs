//! The plugins that run on the containers the watcher sees.

pub mod encrypt;
pub mod template;

use vstd::prelude::*;
use crate::Env;
use crate::labels::ContainerLabels;
use encrypt::{Acme, acme_wanted, is_default_acme};
use template::{Template, template_wanted};

verus! {

/// A plugin: something done to the containers whose labels ask for it.
pub trait OwlPlugin {
    /// The name of the plugin.
    fn get_name(&self) -> &'static str;

    /// Whether the plugin runs on a container with the given labels.
    fn should_process(&self, labels: &ContainerLabels) -> bool;
}

/// One of the plugins of the watcher.
pub enum Plugin {
    Acme(Box<Acme>),
    Template(Box<Template>),
}

/// Whether the plugin `p` runs on a container with the given labels.
pub open spec fn spec_should_process(p: Plugin, labels: Map<Seq<char>, Seq<char>>) -> bool {
    match p {
        Plugin::Acme(_) => acme_wanted(labels),
        Plugin::Template(_) => template_wanted(labels),
    }
}

impl OwlPlugin for Plugin {
    fn get_name(&self) -> (res: &'static str)
        ensures
            res@ == match self {
                Plugin::Acme(_) => "Acme"@,
                Plugin::Template(_) => "Template"@,
            },
    {
        match self {
            Plugin::Acme(a) => a.get_name(),
            Plugin::Template(t) => t.get_name(),
        }
    }

    fn should_process(&self, labels: &ContainerLabels) -> (res: bool)
        ensures
            res == spec_should_process(*self, labels@),
    {
        match self {
            Plugin::Acme(a) => a.should_process(labels),
            Plugin::Template(t) => t.should_process(labels),
        }
    }
}

/// The positions of the plugins in `ps` that run on a container with the
/// given labels, in order.
pub open spec fn selected(ps: Seq<Plugin>, labels: Map<Seq<char>, Seq<char>>) -> Seq<int>
    decreases ps.len(),
{
    if ps.len() == 0 {
        Seq::empty()
    } else {
        let rest = selected(ps.drop_last(), labels);
        if spec_should_process(ps.last(), labels) {
            rest.push(ps.len() - 1)
        } else {
            rest
        }
    }
}

/// The positions as integers.
pub open spec fn positions(v: Seq<usize>) -> Seq<int> {
    v.map_values(|i: usize| i as int)
}

/// The registered plugins, in the order they were registered.
pub struct OwlPlugins {
    pub plugins: Vec<Plugin>,
}

impl Default for OwlPlugins {
    fn default() -> (res: OwlPlugins)
        ensures
            res.plugins@.len() == 0,
    {
        OwlPlugins { plugins: Vec::new() }
    }
}

/// `ps` are the plugins that `register_all_plugins` registers.
pub open spec fn are_all_plugins(ps: Seq<Plugin>, debug: bool) -> bool {
    &&& ps.len() == 2
    &&& ps[0] matches Plugin::Acme(a) && is_default_acme(*a, debug)
    &&& ps[1] matches Plugin::Template(_)
}

impl OwlPlugins {
    /// Registers a plugin after those registered before.
    pub fn register_plugin(&mut self, plugin: Plugin)
        ensures
            final(self).plugins@ == old(self).plugins@.push(plugin),
    {
        self.plugins.push(plugin);
    }

    /// Registers the ACME plugin, then the template plugin.
    pub fn register_all_plugins(&mut self, env: &Env)
        ensures
            final(self).plugins@.len() == old(self).plugins@.len() + 2,
            forall|i: int|
                0 <= i < old(self).plugins@.len() ==> final(self).plugins@[i] == old(
                    self,
                ).plugins@[i],
            final(self).plugins@[old(self).plugins@.len() as int] matches Plugin::Acme(a)
                && is_default_acme(*a, env.env_debug),
            final(self).plugins@[old(self).plugins@.len() as int + 1] matches Plugin::Template(t) && *t
                == (Template {}),
            final(self).plugins@.subrange(0, old(self).plugins@.len() as int) == old(self).plugins@,
            are_all_plugins(
                final(self).plugins@.subrange(
                    old(self).plugins@.len() as int,
                    final(self).plugins@.len() as int,
                ),
                env.env_debug,
            ),
    {
        let ghost before = self.plugins@;
        self.register_plugin(Plugin::Acme(Acme::new(env.env_debug)));
        self.register_plugin(Plugin::Template(Template::new()));
        assert(self.plugins@.subrange(0, before.len() as int) == before);
        let ghost added = self.plugins@.subrange(before.len() as int, self.plugins@.len() as int);
        assert(added[0] == self.plugins@[before.len() as int]);
        assert(added[1] == self.plugins@[before.len() as int + 1]);
    }

    /// The positions of the plugins that run on a container with the given
    /// labels, in the order they were registered.
    pub fn plugins_to_run(&self, labels: &ContainerLabels) -> (res: Vec<usize>)
        ensures
            positions(res@) == selected(self.plugins@, labels@),
    {
        let mut res: Vec<usize> = Vec::new();
        for i in 0..self.plugins.len()
            invariant
                positions(res@) == selected(self.plugins@.take(i as int), labels@),
        {
            let ghost before = res@;
            assert(self.plugins@.take(i + 1).drop_last() == self.plugins@.take(i as int));
            if self.plugins[i].should_process(labels) {
                res.push(i);
                assert(positions(res@) == positions(before).push(i as int));
            }
        }
        assert(self.plugins@.take(self.plugins@.len() as int) == self.plugins@);
        res
    }
}

/// The plugins that `register_all_plugins` registers run on a container as
/// the labels say: the ACME plugin when `letsencrypt-enable` is present, the
/// template plugin when `owl-template-enable`, `owl-template-files` and
/// `owl-template-src` are, the ACME plugin first.
pub proof fn law_registered_plugins_run_as_labels_say(
    ps: Seq<Plugin>,
    debug: bool,
    labels: Map<Seq<char>, Seq<char>>,
)
    requires
        are_all_plugins(ps, debug),
    ensures
        selected(ps, labels) == (if acme_wanted(labels) {
            seq![0int]
        } else {
            Seq::empty()
        }) + (if template_wanted(labels) {
            seq![1int]
        } else {
            Seq::empty()
        }),
{
    assert(ps.drop_last().drop_last().len() == 0);
    assert(selected(ps.drop_last().drop_last(), labels) == Seq::<int>::empty());
    assert(Seq::<int>::empty().push(0) =~= seq![0int]);
    assert(ps.drop_last().last() == ps[0]);
    assert(ps.last() == ps[1]);
    assert(selected(ps.drop_last(), labels) == (if acme_wanted(labels) {
        seq![0int]
    } else {
        Seq::empty()
    }));
    assert(seq![0int].push(1) =~= seq![0int] + seq![1int]);
    assert(Seq::<int>::empty().push(1) =~= Seq::<int>::empty() + seq![1int]);
    assert(seq![0int] =~= seq![0int] + Seq::<int>::empty());
    assert(Seq::<int>::empty() =~= Seq::<int>::empty() + Seq::<int>::empty());
}

} // verus!
