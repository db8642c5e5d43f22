//! Keeping the providers of a running engine in line with the configuration on
//! disk.
//!
//! Three tables are kept: the instances that sessions use, and the configured
//! providers and models. Names are kept in lower case. After a reload the
//! instances are those that the configuration has and that can be built.
use crate::error::{EngineError, EngineErrorView};
use crate::idset::IdSet;
use crate::model::{empty_list, lemma_push_contains, push_item, Dup};
use crate::text::{concat, concat3, lemma_lower_name_of_joined, lower_name, to_lower_name};
use vstd::prelude::*;

verus! {

/// A provider as the configuration on disk has it.
#[derive(Debug)]
pub struct DiskProvider {
    /// Its name, in any case.
    pub id: String,
    /// The names of its models.
    pub models: Vec<String>,
    /// Whether an instance could be built: it has a key, and its protocol is known.
    pub usable: bool,
}

/// The mathematical value of a [`DiskProvider`].
#[verifier::ext_equal]
pub struct DiskProviderView {
    pub id: Seq<char>,
    pub models: Seq<Seq<char>>,
    pub usable: bool,
}

impl View for DiskProvider {
    type V = DiskProviderView;

    open spec fn view(&self) -> DiskProviderView {
        DiskProviderView {
            id: self.id@,
            models: self.models.deep_view(),
            usable: self.usable,
        }
    }
}

impl DeepView for DiskProvider {
    type V = DiskProviderView;

    open spec fn deep_view(&self) -> DiskProviderView {
        self@
    }
}

impl Dup for DiskProvider {
    fn dup(&self) -> (res: Self) {
        DiskProvider {
            id: self.id.dup(),
            models: self.models.dup(),
            usable: self.usable,
        }
    }
}
/// What an engine knows of providers.
pub struct ProviderTable {
    /// The providers that sessions can use.
    pub instances: IdSet,
    /// The providers that are configured.
    pub configs: IdSet,
    /// The models that are configured, each as `provider/model`.
    pub models: IdSet,
}

/// The mathematical value of a [`ProviderTable`].
#[verifier::ext_equal]
pub struct ProviderTableView {
    pub instances: Set<Seq<char>>,
    pub configs: Set<Seq<char>>,
    pub models: Set<Seq<char>>,
}

impl View for ProviderTable {
    type V = ProviderTableView;

    open spec fn view(&self) -> ProviderTableView {
        ProviderTableView {
            instances: self.instances@,
            configs: self.configs@,
            models: self.models@,
        }
    }
}

/// A provider's name in the tables.
pub open spec fn key(p: DiskProviderView) -> Seq<char> {
    lower_name(p.id)
}

/// A model's name in the tables.
pub open spec fn model_key(p: DiskProviderView, model: Seq<char>) -> Seq<char> {
    lower_name(p.id + seq!['/'] + model)
}

/// The names of the providers on disk.
pub open spec fn disk_ids(disk: Seq<DiskProviderView>) -> Set<Seq<char>> {
    Set::new(|x: Seq<char>| exists|i: int| 0 <= i < disk.len() && key(#[trigger] disk[i]) == x)
}

/// The names of the models on disk.
pub open spec fn disk_models(disk: Seq<DiskProviderView>) -> Set<Seq<char>> {
    Set::new(
        |x: Seq<char>|
            exists|i: int, j: int|
                0 <= i < disk.len() && 0 <= j < disk[i].models.len() && #[trigger] model_key(
                    disk[i],
                    disk[i].models[j],
                ) == x,
    )
}

/// The tables once every provider on disk and its models have been entered as
/// configured.
pub open spec fn configured(t: ProviderTableView, disk: Seq<DiskProviderView>) -> ProviderTableView {
    ProviderTableView {
        instances: t.instances,
        configs: t.configs.union(disk_ids(disk)),
        models: t.models.union(disk_models(disk)),
    }
}

/// The instances once every provider on disk has been gone through, in order: one
/// that can be built is there, any other is not.
pub open spec fn built(instances: Set<Seq<char>>, disk: Seq<DiskProviderView>) -> Set<Seq<char>>
    decreases disk.len(),
{
    if disk.len() == 0 {
        instances
    } else {
        let before = built(instances, disk.drop_last());
        if disk.last().usable {
            before.insert(key(disk.last()))
        } else {
            before.remove(key(disk.last()))
        }
    }
}

/// The names of the providers on disk that cannot be built, in order.
pub open spec fn skipped(disk: Seq<DiskProviderView>) -> Seq<Seq<char>>
    decreases disk.len(),
{
    if disk.len() == 0 {
        Seq::empty()
    } else {
        let before = skipped(disk.drop_last());
        if disk.last().usable {
            before
        } else {
            before.push(key(disk.last()))
        }
    }
}

/// The providers that are not on disk any more.
pub open spec fn stale(t: ProviderTableView, disk: Seq<DiskProviderView>) -> Set<Seq<char>> {
    t.instances.union(t.configs).difference(disk_ids(disk))
}

/// Whether a model belongs to one of some providers.
pub open spec fn belongs_to(model: Seq<char>, providers: Set<Seq<char>>) -> bool {
    exists|p: Seq<char>| providers.contains(p) && #[trigger] (p + "/"@).is_prefix_of(model)
}

/// The tables after a reload.
pub open spec fn reloaded(t: ProviderTableView, disk: Seq<DiskProviderView>) -> ProviderTableView {
    let gone = stale(t, disk);
    ProviderTableView {
        instances: built(t.instances, disk).intersect(disk_ids(disk)),
        configs: t.configs.union(disk_ids(disk)).difference(gone),
        models: t.models.union(disk_models(disk)).filter(|m: Seq<char>| !belongs_to(m, gone)),
    }
}

/// What is said when the configuration cannot be read.
pub open spec fn reload_error(cause: Seq<char>) -> EngineErrorView {
    EngineErrorView::Provider("供应商刷新失败：三层配置加载失败（"@ + cause + "）"@)
}

impl ProviderTable {
    /// Nothing is known yet.
    pub fn new() -> (res: ProviderTable)
        ensures
            res@ == (ProviderTableView {
                instances: Set::empty(),
                configs: Set::empty(),
                models: Set::empty(),
            }),
    {
        ProviderTable { instances: IdSet::new(), configs: IdSet::new(), models: IdSet::new() }
    }

    /// Puts the models of a provider in the table.
    fn register_models(&mut self, p: &DiskProvider)
        ensures
            final(self)@.instances == old(self)@.instances,
            final(self)@.configs == old(self)@.configs,
            forall|x: Seq<char>|
                #[trigger] final(self)@.models.contains(x) <==> old(self)@.models.contains(x)
                    || exists|j: int|
                    0 <= j < p@.models.len() && #[trigger] model_key(p@, p@.models[j]) == x,
    {
        let ghost old_models = self@.models;
        let mut j: usize = 0;
        while j < p.models.len()
            invariant
                j <= p.models.len(),
                self@.instances == old(self)@.instances,
                self@.configs == old(self)@.configs,
                forall|x: Seq<char>|
                    #[trigger] self@.models.contains(x) <==> old_models.contains(x) || exists|k: int|
                        0 <= k < j && #[trigger] model_key(p@, p@.models[k]) == x,
            decreases p.models.len() - j,
        {
            let ghost before = self@.models;
            let full = concat3(p.id.as_str(), "/", p.models[j].as_str());
            assert("/"@ =~= seq!['/']) by {
                reveal_strlit("/");
            }
            self.models.insert(to_lower_name(full.as_str()));
            let ghost name = model_key(p@, p@.models[j as int]);
            assert forall|x: Seq<char>|
                #[trigger] self@.models.contains(x) <==> old_models.contains(x) || exists|k: int|
                    0 <= k < j + 1 && #[trigger] model_key(p@, p@.models[k]) == x by {
                assert(self@.models.contains(x) <==> before.contains(x) || x == name);
                if x == name {
                    assert(model_key(p@, p@.models[j as int]) == x);
                }
            }
            j += 1;
        }
    }

    /// Puts the providers on disk and their models in the tables, as far as they are
    /// configured; no instances.
    pub fn register_configs(&mut self, disk: &Vec<DiskProvider>)
        ensures
            final(self)@ == configured(old(self)@, disk.deep_view()),
    {
        let ghost t = self@;
        let ghost all = disk.deep_view();
        let mut i: usize = 0;
        assert(self@.configs =~= t.configs.union(disk_ids(all.take(0))));
        assert(self@.models =~= t.models.union(disk_models(all.take(0))));
        while i < disk.len()
            invariant
                i <= disk.len(),
                all == disk.deep_view(),
                self@.instances == t.instances,
                self@.configs == t.configs.union(disk_ids(all.take(i as int))),
                self@.models == t.models.union(disk_models(all.take(i as int))),
            decreases disk.len() - i,
        {
            let p = &disk[i];
            let ghost upto = all.take(i + 1);
            let ghost front = all.take(i as int);
            let ghost before = self@;
            self.configs.insert(to_lower_name(p.id.as_str()));
            self.register_models(p);
            proof {
                lemma_disk_ids_step(all, i as int);
                lemma_disk_models_step(all, i as int);
                assert(self@.configs =~= t.configs.union(disk_ids(upto)));
                assert forall|x: Seq<char>|
                    #[trigger] self@.models.contains(x) <==> t.models.union(
                        disk_models(upto),
                    ).contains(x) by {
                    assert(self@.models.contains(x) <==> before.models.contains(x) || exists|j: int|
                        0 <= j < p@.models.len() && #[trigger] model_key(p@, p@.models[j]) == x);
                    assert(disk_models(upto).contains(x) <==> disk_models(front).contains(x)
                        || exists|j: int|
                        0 <= j < p@.models.len() && #[trigger] model_key(p@, p@.models[j]) == x);
                }
                assert(self@.models =~= t.models.union(disk_models(upto)));
            }
            i += 1;
        }
        assert(all.take(i as int) =~= all);
    }

    /// Goes through the providers on disk, so that there is an instance of each that
    /// can be built. Returns those that cannot.
    fn build_instances(&mut self, disk: &Vec<DiskProvider>) -> (res: Vec<String>)
        ensures
            final(self)@ == (ProviderTableView {
                instances: built(old(self)@.instances, disk.deep_view()),
                ..old(self)@
            }),
            res.deep_view() == skipped(disk.deep_view()),
    {
        let ghost t = self@;
        let ghost all = disk.deep_view();
        let mut res: Vec<String> = empty_list();
        let mut i: usize = 0;
        while i < disk.len()
            invariant
                i <= disk.len(),
                all == disk.deep_view(),
                self@ == (ProviderTableView {
                    instances: built(t.instances, all.take(i as int)),
                    ..t
                }),
                res.deep_view() == skipped(all.take(i as int)),
            decreases disk.len() - i,
        {
            let p = &disk[i];
            assert(all.take(i + 1).drop_last() =~= all.take(i as int));
            assert(all.take(i + 1).last() == p@);
            if p.usable {
                self.instances.insert(to_lower_name(p.id.as_str()));
            } else {
                push_item(&mut res, to_lower_name(p.id.as_str()));
                self.instances.remove(to_lower_name(p.id.as_str()).as_str());
            }
            i += 1;
        }
        assert(all.take(i as int) =~= all);
        res
    }

    /// Takes out what is not on disk any more.
    fn remove_stale(&mut self, disk: &Vec<DiskProvider>)
        ensures
            ({
                let ids = disk_ids(disk.deep_view());
                let gone = old(self)@.instances.union(old(self)@.configs).difference(ids);
                final(self)@ == (ProviderTableView {
                    instances: old(self)@.instances.intersect(ids),
                    configs: old(self)@.configs.difference(gone),
                    models: old(self)@.models.filter(|m: Seq<char>| !belongs_to(m, gone)),
                })
            }),
    {
        let ghost t = self@;
        let ghost ids = disk_ids(disk.deep_view());
        let ghost gone = t.instances.union(t.configs).difference(ids);
        let mut on_disk = IdSet::new();
        let ghost all = disk.deep_view();
        let mut i: usize = 0;
        assert(on_disk@ =~= disk_ids(all.take(0)));
        while i < disk.len()
            invariant
                i <= disk.len(),
                all == disk.deep_view(),
                on_disk@ == disk_ids(all.take(i as int)),
            decreases disk.len() - i,
        {
            on_disk.insert(to_lower_name(disk[i].id.as_str()));
            proof {
                lemma_disk_ids_step(all, i as int);
                assert(on_disk@ =~= disk_ids(all.take(i + 1)));
            }
            i += 1;
        }
        assert(all.take(i as int) =~= all);
        let mut gone_ids: Vec<String> = empty_list();
        collect_missing(&self.instances, &on_disk, &mut gone_ids);
        collect_missing(&self.configs, &on_disk, &mut gone_ids);
        assert forall|x: Seq<char>|
            gone.contains(x) <==> #[trigger] gone_ids.deep_view().contains(x) by {}
        let ghost list = gone_ids.deep_view();
        let mut n: usize = 0;
        while n < gone_ids.len()
            invariant
                n <= gone_ids.len(),
                list == gone_ids.deep_view(),
                forall|x: Seq<char>|
                    #[trigger] self@.instances.contains(x) <==> t.instances.contains(x)
                        && !list.take(n as int).contains(x),
                forall|x: Seq<char>|
                    #[trigger] self@.configs.contains(x) <==> t.configs.contains(x) && !list.take(
                        n as int,
                    ).contains(x),
                forall|x: Seq<char>|
                    #[trigger] self@.models.contains(x) <==> t.models.contains(x) && !belongs_to(
                        x,
                        list.take(n as int).to_set(),
                    ),
            decreases gone_ids.len() - n,
        {
            let id = gone_ids[n].as_str();
            let ghost before = self@;
            let ghost front = list.take(n as int);
            let ghost upto = list.take(n + 1);
            self.instances.remove(id);
            self.configs.remove(id);
            let start = concat(id, "/");
            self.models.remove_prefixed(start.as_str());
            proof {
                assert(upto =~= front.push(id@));
                assert forall|x: Seq<char>|
                    #[trigger] self@.instances.contains(x) <==> t.instances.contains(x)
                        && !upto.contains(x) by {
                    lemma_push_contains(front, id@, x);
                    assert(self@.instances.contains(x) <==> before.instances.contains(x) && x
                        != id@);
                }
                assert forall|x: Seq<char>|
                    #[trigger] self@.configs.contains(x) <==> t.configs.contains(x)
                        && !upto.contains(x) by {
                    lemma_push_contains(front, id@, x);
                    assert(self@.configs.contains(x) <==> before.configs.contains(x) && x != id@);
                }
                assert forall|x: Seq<char>|
                    #[trigger] self@.models.contains(x) <==> t.models.contains(x) && !belongs_to(
                        x,
                        upto.to_set(),
                    ) by {
                    assert(self@.models.contains(x) <==> before.models.contains(x)
                        && !start@.is_prefix_of(x));
                    lemma_belongs_step(front, id@, x);
                }
            }
            n += 1;
        }
        proof {
            assert(list.take(n as int) =~= list);
            assert(list.to_set() =~= gone);
            assert(self@.instances =~= t.instances.intersect(ids));
            assert(self@.configs =~= t.configs.difference(gone));
            assert(self@.models =~= t.models.filter(|m: Seq<char>| !belongs_to(m, gone)));
        }
    }

    /// Brings the tables in line with the configuration on disk. Returns the
    /// providers that are configured but cannot be used. Where the configuration
    /// cannot be read, nothing changes.
    pub fn reload_providers(&mut self, config: Result<Vec<DiskProvider>, String>) -> (res: Result<
        Vec<String>,
        EngineError,
    >)
        ensures
            match config {
                Ok(disk) => res is Ok && res->Ok_0.deep_view() == skipped(disk.deep_view())
                    && final(self)@ == reloaded(old(self)@, disk.deep_view()),
                Err(cause) => res is Err && res->Err_0@ == reload_error(cause@) && final(self)@
                    == old(self)@,
            },
    {
        match config {
            Ok(disk) => {
                let ghost t = self@;
                let ghost all = disk.deep_view();
                self.register_configs(&disk);
                let res = self.build_instances(&disk);
                let ghost mid = self@;
                self.remove_stale(&disk);
                proof {
                    let gone = mid.instances.union(mid.configs).difference(disk_ids(all));
                    assert forall|x: Seq<char>| gone.contains(x) <==> stale(t, all).contains(x) by {
                        if !disk_ids(all).contains(x) {
                            lemma_built_off_disk(t.instances, all, x);
                        }
                    }
                    assert(gone =~= stale(t, all));
                    assert(self@ =~= reloaded(t, all));
                }
                Ok(res)
            },
            Err(cause) => Err(
                EngineError::Provider(
                    concat3(
                        "供应商刷新失败：三层配置加载失败（",
                        cause.as_str(),
                        "）",
                    ),
                ),
            ),
        }
    }
}

/// Adds the names in a set that are not on disk to a list.
fn collect_missing(set: &IdSet, on_disk: &IdSet, out: &mut Vec<String>)
    ensures
        forall|x: Seq<char>|
            #[trigger] final(out).deep_view().contains(x) <==> old(out).deep_view().contains(x) || (
            set@.contains(x) && !on_disk@.contains(x)),
{
    let ghost first = out.deep_view();
    let ghost listed = set.listed();
    let mut k: usize = 0;
    while k < set.len()
        invariant
            k <= listed.len(),
            listed == set.listed(),
            forall|x: Seq<char>|
                #[trigger] out.deep_view().contains(x) <==> first.contains(x) || (
                !on_disk@.contains(x) && listed.take(k as int).contains(x)),
        decreases listed.len() - k,
    {
        let id = set.get(k).dup();
        let ghost before = out.deep_view();
        let ghost name = id@;
        if !on_disk.contains(id.as_str()) {
            push_item(out, id);
        }
        proof {
            assert(listed.take(k + 1) =~= listed.take(k as int).push(name));
            assert forall|x: Seq<char>|
                #[trigger] out.deep_view().contains(x) <==> first.contains(x) || (
                !on_disk@.contains(x) && listed.take(k + 1).contains(x)) by {
                lemma_push_contains(before, name, x);
                lemma_push_contains(listed.take(k as int), name, x);
            }
        }
        k += 1;
    }
    proof {
        set.lemma_listed();
        assert(listed.take(k as int) =~= listed);
    }
}

/// What is on disk does not change which of the instances before it are gone.
proof fn lemma_built_off_disk(instances: Set<Seq<char>>, disk: Seq<DiskProviderView>, x: Seq<char>)
    requires
        !disk_ids(disk).contains(x),
    ensures
        built(instances, disk).contains(x) == instances.contains(x),
    decreases disk.len(),
{
    if disk.len() > 0 {
        let front = disk.drop_last();
        assert(!disk_ids(front).contains(x)) by {
            if disk_ids(front).contains(x) {
                let k = choose|k: int| 0 <= k < front.len() && key(#[trigger] front[k]) == x;
                assert(key(disk[k]) == x);
            }
        }
        lemma_built_off_disk(instances, front, x);
        assert(key(disk[disk.len() - 1]) != x);
    }
}

proof fn lemma_belongs_step(front: Seq<Seq<char>>, id: Seq<char>, x: Seq<char>)
    ensures
        belongs_to(x, front.push(id).to_set()) <==> belongs_to(x, front.to_set()) || (id
            + "/"@).is_prefix_of(x),
{
    let all = front.push(id);
    if belongs_to(x, front.to_set()) {
        let p = choose|p: Seq<char>|
            front.to_set().contains(p) && #[trigger] (p + "/"@).is_prefix_of(x);
        lemma_push_contains(front, id, p);
        assert(all.to_set().contains(p));
    }
    if (id + "/"@).is_prefix_of(x) {
        lemma_push_contains(front, id, id);
        assert(all.to_set().contains(id));
    }
    if belongs_to(x, all.to_set()) {
        let p = choose|p: Seq<char>|
            all.to_set().contains(p) && #[trigger] (p + "/"@).is_prefix_of(x);
        lemma_push_contains(front, id, p);
        if front.contains(p) {
            assert(front.to_set().contains(p));
        }
    }
}

proof fn lemma_disk_ids_step(all: Seq<DiskProviderView>, i: int)
    requires
        0 <= i < all.len(),
    ensures
        disk_ids(all.take(i + 1)) == disk_ids(all.take(i)).insert(key(all[i])),
{
    let front = all.take(i);
    let upto = all.take(i + 1);
    assert forall|x: Seq<char>|
        disk_ids(upto).contains(x) <==> disk_ids(front).insert(key(all[i])).contains(x) by {
        if disk_ids(upto).contains(x) {
            let k = choose|k: int| 0 <= k < upto.len() && key(#[trigger] upto[k]) == x;
            if k < i {
                assert(key(front[k]) == x);
            }
        }
        if disk_ids(front).contains(x) {
            let k = choose|k: int| 0 <= k < front.len() && key(#[trigger] front[k]) == x;
            assert(key(upto[k]) == x);
        }
        if x == key(all[i]) {
            assert(key(upto[i]) == x);
        }
    }
    assert(disk_ids(upto) =~= disk_ids(front).insert(key(all[i])));
}

proof fn lemma_disk_models_step(all: Seq<DiskProviderView>, i: int)
    requires
        0 <= i < all.len(),
    ensures
        forall|x: Seq<char>|
            disk_models(all.take(i + 1)).contains(x) <==> disk_models(all.take(i)).contains(x)
                || exists|j: int|
                0 <= j < all[i].models.len() && #[trigger] model_key(all[i], all[i].models[j]) == x,
{
    let front = all.take(i);
    let upto = all.take(i + 1);
    assert forall|x: Seq<char>|
        disk_models(upto).contains(x) <==> disk_models(front).contains(x) || exists|j: int|
            0 <= j < all[i].models.len() && #[trigger] model_key(all[i], all[i].models[j]) == x by {
        if disk_models(upto).contains(x) {
            let (k, j) = choose|k: int, j: int|
                0 <= k < upto.len() && 0 <= j < upto[k].models.len() && #[trigger] model_key(
                    upto[k],
                    upto[k].models[j],
                ) == x;
            if k < i {
                assert(model_key(front[k], front[k].models[j]) == x);
            } else {
                assert(model_key(all[i], all[i].models[j]) == x);
            }
        }
        if disk_models(front).contains(x) {
            let (k, j) = choose|k: int, j: int|
                0 <= k < front.len() && 0 <= j < front[k].models.len() && #[trigger] model_key(
                    front[k],
                    front[k].models[j],
                ) == x;
            assert(model_key(upto[k], upto[k].models[j]) == x);
        }
        if exists|j: int|
            0 <= j < all[i].models.len() && #[trigger] model_key(all[i], all[i].models[j]) == x {
            let j = choose|j: int|
                0 <= j < all[i].models.len() && #[trigger] model_key(all[i], all[i].models[j]) == x;
            assert(model_key(upto[i], upto[i].models[j]) == x);
        }
    }
}

// ---- laws ----

/// Whether no two providers on disk have the same name in the tables.
pub open spec fn distinct(disk: Seq<DiskProviderView>) -> bool {
    forall|i: int, j: int|
        0 <= i < j < disk.len() ==> key(#[trigger] disk[i]) != key(#[trigger] disk[j])
}

/// The names of the providers on disk that can be built.
pub open spec fn usable_ids(disk: Seq<DiskProviderView>) -> Set<Seq<char>> {
    Set::new(
        |x: Seq<char>|
            exists|i: int| 0 <= i < disk.len() && (#[trigger] disk[i]).usable && key(disk[i]) == x,
    )
}

proof fn lemma_built(instances: Set<Seq<char>>, disk: Seq<DiskProviderView>, x: Seq<char>)
    requires
        distinct(disk),
    ensures
        built(instances, disk).contains(x) <==> (if disk_ids(disk).contains(x) {
            usable_ids(disk).contains(x)
        } else {
            instances.contains(x)
        }),
    decreases disk.len(),
{
    if disk.len() > 0 {
        let front = disk.drop_last();
        let last = disk.last();
        let n = disk.len() - 1;
        assert forall|i: int, j: int| 0 <= i < j < front.len() implies key(#[trigger] front[i])
            != key(#[trigger] front[j]) by {
            assert(key(disk[i]) != key(disk[j]));
        }
        lemma_built(instances, front, x);
        if disk_ids(front).contains(x) {
            let k = choose|k: int| 0 <= k < front.len() && key(#[trigger] front[k]) == x;
            assert(key(disk[k]) == x);
            assert(key(disk[k]) != key(disk[n]));
        }
        if usable_ids(front).contains(x) {
            let k = choose|k: int|
                0 <= k < front.len() && (#[trigger] front[k]).usable && key(front[k]) == x;
            assert(disk[k].usable && key(disk[k]) == x);
        }
        if usable_ids(disk).contains(x) {
            let k = choose|k: int|
                0 <= k < disk.len() && (#[trigger] disk[k]).usable && key(disk[k]) == x;
            if k < n {
                assert(front[k].usable && key(front[k]) == x);
            }
        }
        if disk_ids(disk).contains(x) {
            let k = choose|k: int| 0 <= k < disk.len() && key(#[trigger] disk[k]) == x;
            if k < n {
                assert(key(front[k]) == x);
            }
        }
        if x == key(last) {
            assert(key(disk[n]) == x);
            if last.usable {
                assert(disk[n].usable && key(disk[n]) == x);
            }
        }
    }
}

/// After a reload, the instances are exactly the providers on disk that can be
/// built, whatever was there before.
pub proof fn law_instances_are_the_usable_ones(t: ProviderTableView, disk: Seq<DiskProviderView>)
    requires
        distinct(disk),
    ensures
        reloaded(t, disk).instances == usable_ids(disk),
{
    assert forall|x: Seq<char>| reloaded(t, disk).instances.contains(x) <==> usable_ids(
        disk,
    ).contains(x) by {
        lemma_built(t.instances, disk, x);
        if usable_ids(disk).contains(x) {
            let k = choose|k: int|
                0 <= k < disk.len() && (#[trigger] disk[k]).usable && key(disk[k]) == x;
            assert(key(disk[k]) == x);
        }
    }
    assert(reloaded(t, disk).instances =~= usable_ids(disk));
}

/// After a reload, the configured providers are exactly those on disk, whatever was
/// there before: an empty disk leaves nothing.
pub proof fn law_configs_are_those_on_disk(t: ProviderTableView, disk: Seq<DiskProviderView>)
    ensures
        reloaded(t, disk).configs == disk_ids(disk),
        reloaded(t, disk).instances.subset_of(disk_ids(disk)),
        disk.len() == 0 ==> reloaded(t, disk).configs == Set::<Seq<char>>::empty() && reloaded(
            t,
            disk,
        ).instances == Set::<Seq<char>>::empty(),
{
    assert(reloaded(t, disk).configs =~= disk_ids(disk));
    if disk.len() == 0 {
        assert(disk_ids(disk) =~= Set::<Seq<char>>::empty());
        assert(reloaded(t, disk).instances =~= Set::<Seq<char>>::empty());
    }
}

/// After a reload no model is left whose name starts with that of a provider which was
/// taken out, and a slash.
pub proof fn law_removed_providers_leave_no_model(
    t: ProviderTableView,
    disk: Seq<DiskProviderView>,
    m: Seq<char>,
    p: Seq<char>,
)
    requires
        reloaded(t, disk).models.contains(m),
        stale(t, disk).contains(p),
    ensures
        !(p + "/"@).is_prefix_of(m),
{
    if (p + "/"@).is_prefix_of(m) {
        assert(belongs_to(m, stale(t, disk)));
    }
}

/// A provider that one reload found on disk and the next does not is gone with all of
/// its models, whether or not it could be used: it has no instance, is not configured,
/// and none of its models is known.
pub proof fn law_a_removed_provider_takes_its_models(
    t: ProviderTableView,
    before: Seq<DiskProviderView>,
    disk: Seq<DiskProviderView>,
    i: int,
    j: int,
)
    requires
        0 <= i < before.len(),
        0 <= j < before[i].models.len(),
        !disk_ids(disk).contains(key(before[i])),
    ensures
        ({
            let after = reloaded(reloaded(t, before), disk);
            &&& !after.instances.contains(key(before[i]))
            &&& !after.configs.contains(key(before[i]))
            &&& !after.models.contains(model_key(before[i], before[i].models[j]))
        }),
{
    let mid = reloaded(t, before);
    let p = key(before[i]);
    let m = model_key(before[i], before[i].models[j]);
    law_configs_are_those_on_disk(t, before);
    law_configs_are_those_on_disk(mid, disk);
    assert(disk_ids(before).contains(p));
    assert(stale(mid, disk).contains(p));
    lemma_lower_name_of_joined(before[i].id, before[i].models[j]);
    assert("/"@ =~= seq!['/']) by {
        reveal_strlit("/");
    }
    assert(m.take((p + "/"@).len() as int) =~= p + "/"@);
    assert((p + "/"@).is_prefix_of(m));
    if reloaded(mid, disk).models.contains(m) {
        law_removed_providers_leave_no_model(mid, disk, m, p);
    }
}

/// A second reload of the same configuration changes nothing, as long as no model
/// on disk has a name that starts like those of a provider which the first took out.
pub proof fn law_reload_is_idempotent(t: ProviderTableView, disk: Seq<DiskProviderView>)
    requires
        distinct(disk),
        forall|m: Seq<char>| #[trigger]
            disk_models(disk).contains(m) ==> !belongs_to(m, stale(t, disk)),
    ensures
        reloaded(reloaded(t, disk), disk) == reloaded(t, disk),
{
    let once = reloaded(t, disk);
    let twice = reloaded(once, disk);
    law_instances_are_the_usable_ones(t, disk);
    law_instances_are_the_usable_ones(once, disk);
    law_configs_are_those_on_disk(t, disk);
    assert forall|x: Seq<char>| !stale(once, disk).contains(x) by {}
    assert forall|m: Seq<char>| !belongs_to(m, stale(once, disk)) by {}
    let gone = stale(t, disk);
    assert(twice.configs =~= once.configs);
    assert forall|x: Seq<char>| twice.models.contains(x) <==> once.models.contains(x) by {
        assert(!belongs_to(x, stale(once, disk)));
        if disk_models(disk).contains(x) {
            assert(!belongs_to(x, gone));
        }
    }
    assert(twice.models =~= once.models);
}

/// A reload skips the providers on disk that cannot be used, in their order, and names
/// them in lower case.
pub proof fn law_the_unusable_are_skipped(disk: Seq<DiskProviderView>)
    ensures
        skipped(disk) == disk.filter(|p: DiskProviderView| !p.usable).map_values(
            |p: DiskProviderView| lower_name(p.id),
        ),
    decreases disk.len(),
{
    reveal(Seq::filter);
    if disk.len() > 0 {
        law_the_unusable_are_skipped(disk.drop_last());
    }
    assert(skipped(disk) =~= disk.filter(|p: DiskProviderView| !p.usable).map_values(
        |p: DiskProviderView| lower_name(p.id),
    ));
}

/// After a reload a name is configured exactly if a provider on disk goes by it, and has
/// an instance exactly if one that can be used does.
pub proof fn law_names_after_a_reload(
    t: ProviderTableView,
    disk: Seq<DiskProviderView>,
    x: Seq<char>,
)
    requires
        distinct(disk),
    ensures
        reloaded(t, disk).configs.contains(x) <==> exists|i: int|
            0 <= i < disk.len() && lower_name((#[trigger] disk[i]).id) == x,
        reloaded(t, disk).instances.contains(x) <==> exists|i: int|
            0 <= i < disk.len() && (#[trigger] disk[i]).usable && lower_name(disk[i].id) == x,
{
    law_configs_are_those_on_disk(t, disk);
    law_instances_are_the_usable_ones(t, disk);
    if disk_ids(disk).contains(x) {
        let i = choose|i: int| 0 <= i < disk.len() && key(#[trigger] disk[i]) == x;
        assert(lower_name(disk[i].id) == x);
    }
    if exists|i: int| 0 <= i < disk.len() && lower_name((#[trigger] disk[i]).id) == x {
        let i = choose|i: int| 0 <= i < disk.len() && lower_name((#[trigger] disk[i]).id) == x;
        assert(key(disk[i]) == x);
    }
    if usable_ids(disk).contains(x) {
        let i = choose|i: int|
            0 <= i < disk.len() && (#[trigger] disk[i]).usable && key(disk[i]) == x;
        assert(disk[i].usable && lower_name(disk[i].id) == x);
    }
    if exists|i: int|
        0 <= i < disk.len() && (#[trigger] disk[i]).usable && lower_name(disk[i].id) == x {
        let i = choose|i: int|
            0 <= i < disk.len() && (#[trigger] disk[i]).usable && lower_name(disk[i].id) == x;
        assert(disk[i].usable && key(disk[i]) == x);
    }
}

/// After a reload a model is known exactly if it was known before or stands on disk under
/// its provider, and no provider that was taken out has a name that its own starts with.
/// Entering what is configured adds these names and takes none out.
pub proof fn law_models_after_a_reload(
    t: ProviderTableView,
    disk: Seq<DiskProviderView>,
    m: Seq<char>,
)
    ensures
        ({
            let on_disk = exists|i: int, j: int|
                0 <= i < disk.len() && 0 <= j < disk[i].models.len() && m == lower_name(
                    disk[i].id,
                ) + seq!['/'] + lower_name(#[trigger] disk[i].models[j]);
            let taken_out = exists|p: Seq<char>|
                {
                    &&& t.instances.contains(p) || t.configs.contains(p)
                    &&& forall|i: int|
                        0 <= i < disk.len() ==> lower_name((#[trigger] disk[i]).id) != p
                    &&& #[trigger] (p + "/"@).is_prefix_of(m)
                };
            &&& reloaded(t, disk).models.contains(m) <==> (t.models.contains(m) || on_disk)
                && !taken_out
            &&& configured(t, disk).models.contains(m) <==> t.models.contains(m) || on_disk
            &&& configured(t, disk).instances == t.instances
        }),
{
    let on_disk = exists|i: int, j: int|
        0 <= i < disk.len() && 0 <= j < disk[i].models.len() && m == lower_name(disk[i].id) + seq![
            '/',
        ] + lower_name(#[trigger] disk[i].models[j]);
    let taken_out = exists|p: Seq<char>|
        {
            &&& t.instances.contains(p) || t.configs.contains(p)
            &&& forall|i: int| 0 <= i < disk.len() ==> lower_name((#[trigger] disk[i]).id) != p
            &&& #[trigger] (p + "/"@).is_prefix_of(m)
        };
    let gone = stale(t, disk);
    if disk_models(disk).contains(m) {
        let (i, j) = choose|i: int, j: int|
            0 <= i < disk.len() && 0 <= j < disk[i].models.len() && #[trigger] model_key(
                disk[i],
                disk[i].models[j],
            ) == m;
        lemma_lower_name_of_joined(disk[i].id, disk[i].models[j]);
        assert(m == lower_name(disk[i].id) + seq!['/'] + lower_name(disk[i].models[j]));
        assert(on_disk);
    }
    if on_disk {
        let (i, j) = choose|i: int, j: int|
            0 <= i < disk.len() && 0 <= j < disk[i].models.len() && m == lower_name(disk[i].id)
                + seq!['/'] + lower_name(#[trigger] disk[i].models[j]);
        lemma_lower_name_of_joined(disk[i].id, disk[i].models[j]);
        assert(model_key(disk[i], disk[i].models[j]) == m);
        assert(disk_models(disk).contains(m));
    }
    if belongs_to(m, gone) {
        let p = choose|p: Seq<char>| gone.contains(p) && #[trigger] (p + "/"@).is_prefix_of(m);
        assert forall|i: int| 0 <= i < disk.len() implies lower_name((#[trigger] disk[i]).id)
            != p by {
            assert(key(disk[i]) != p);
        }
        assert(taken_out);
    }
    if taken_out {
        let p = choose|p: Seq<char>|
            {
                &&& t.instances.contains(p) || t.configs.contains(p)
                &&& forall|i: int|
                    0 <= i < disk.len() ==> lower_name((#[trigger] disk[i]).id) != p
                &&& #[trigger] (p + "/"@).is_prefix_of(m)
            };
        if disk_ids(disk).contains(p) {
            let i = choose|i: int| 0 <= i < disk.len() && key(#[trigger] disk[i]) == p;
            assert(lower_name(disk[i].id) == p);
        }
        assert(gone.contains(p));
        assert(belongs_to(m, gone));
    }
}

/// A configuration that cannot be read is told of with the cause.
pub proof fn law_an_unreadable_configuration_is_told_of(cause: Seq<char>)
    ensures
        reload_error(cause) is Provider,
        reload_error(cause)->Provider_0 == "供应商刷新失败：三层配置加载失败（"@ + cause
            + "）"@,
{
}

} // verus!
