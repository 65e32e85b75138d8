use vstd::prelude::*;

use super::track::Track as TrackEntry;

verus! {

/// Identifies a plugin by the namespace of its kind and its id within that namespace.
#[derive(Clone, Debug, Default, PartialEq, Eq)]
pub struct PluginId {
    /// The namespace, such as "lv2".
    pub namespace: String,
    /// The id within the namespace, such as the URI of an LV2 plugin.
    pub id: String,
}

impl PluginId {
    /// True when the plugin is in the "lv2" namespace, the only kind of plugin that can be
    /// instantiated.
    pub fn is_lv2(&self) -> (r: bool)
        ensures
            r == (self.namespace@ == "lv2"@),
    {
        let lv2 = "lv2".to_owned();
        self.namespace == lv2
    }
}

/// A plugin that can be instantiated.
#[derive(Clone, Debug, PartialEq, Eq)]
pub struct Plugin {
    /// The id of the plugin.
    pub id: PluginId,
    /// The human readable name of the plugin.
    pub name: String,
}

/// The parameters for creating a plugin instance.
#[derive(Clone, Debug, PartialEq, Eq)]
pub struct MakePluginInstanceParams {
    /// The track to add the instance to.
    pub track_id: u32,
    /// The plugin to instantiate.
    pub plugin_id: PluginId,
}

/// The parameters of a request that names an object by id.
#[derive(Copy, Clone, Debug, PartialEq, Eq, Structural)]
pub struct IdParams {
    /// The id.
    pub id: u32,
}

/// A plugin instance as reported to a user.
#[derive(Clone, Debug, PartialEq, Eq)]
pub struct PluginInstance {
    /// The id of the plugin instance.
    pub id: u32,
    /// The plugin that was instantiated.
    pub plugin_id: PluginId,
    /// The track that holds the instance.
    pub track_id: u32,
}

/// A track as reported to a user. `V` is the type of the volume.
#[derive(Clone, Debug, PartialEq)]
pub struct Track<V> {
    /// The id of the track.
    pub id: u32,
    /// The plugin instances on the track.
    pub plugin_instances: Vec<PluginInstance>,
    /// If the track is enabled.
    pub enabled: bool,
    /// The amount to output.
    pub volume: V,
}

/// The contents of a reported track: id, plugin instances, enabled flag and volume.
pub type TrackSummary<V> = (u32, Seq<PluginInstance>, bool, V);

/// The contents of a track summary.
pub open spec fn summary<V>(t: Track<V>) -> TrackSummary<V> {
    (t.id, t.plugin_instances@, t.enabled, t.volume)
}

/// The index of the first track of `tracks` with id `id`, or `tracks.len()` if there is none.
pub open spec fn first_with_id<V>(tracks: Seq<TrackSummary<V>>, id: u32) -> int
    decreases tracks.len(),
{
    if tracks.len() == 0 {
        0
    } else if tracks[0].0 == id {
        0
    } else {
        1 + first_with_id(tracks.drop_first(), id)
    }
}

/// `tracks` after adding `p` to the first track whose id is the track id of `p`; nothing
/// changes if there is no such track.
pub open spec fn attach_one<V>(tracks: Seq<TrackSummary<V>>, p: PluginInstance) -> Seq<TrackSummary<V>> {
    let i = first_with_id(tracks, p.track_id);
    if i < tracks.len() {
        tracks.update(i, (tracks[i].0, tracks[i].1.push(p), tracks[i].2, tracks[i].3))
    } else {
        tracks
    }
}

/// `tracks` after attaching each of `ps` in order.
pub open spec fn attach_all<V>(tracks: Seq<TrackSummary<V>>, ps: Seq<PluginInstance>) -> Seq<TrackSummary<V>>
    decreases ps.len(),
{
    if ps.len() == 0 {
        tracks
    } else {
        attach_one(attach_all(tracks, ps.drop_last()), ps.last())
    }
}

/// `first_with_id` finds the first matching track, or gives the length when there is none.
pub proof fn lemma_first_with_id<V>(tracks: Seq<TrackSummary<V>>, id: u32)
    ensures
        0 <= first_with_id(tracks, id) <= tracks.len(),
        first_with_id(tracks, id) < tracks.len() ==> tracks[first_with_id(tracks, id)].0 == id,
        forall|j: int| 0 <= j < first_with_id(tracks, id) ==> #[trigger] tracks[j].0 != id,
    decreases tracks.len(),
{
    if tracks.len() > 0 && tracks[0].0 != id {
        lemma_first_with_id(tracks.drop_first(), id);
        assert forall|j: int| 0 <= j < first_with_id(tracks, id) implies #[trigger] tracks[j].0 != id by {
            if j > 0 {
                assert(tracks[j] == tracks.drop_first()[j - 1]);
            }
        }
    }
}

/// The summaries of `tracks`.
pub open spec fn summaries<V>(tracks: Seq<Track<V>>) -> Seq<TrackSummary<V>> {
    tracks.map_values(|t: Track<V>| summary(t))
}

/// Add `p` to the first track of `tracks` whose id is the track id of `p`. If there is no such
/// track, `p` is dropped and nothing changes.
pub fn attach_plugin_instance<V>(tracks: &mut Vec<Track<V>>, p: PluginInstance)
    ensures
        summaries(final(tracks)@) == attach_one(summaries(old(tracks)@), p),
{
    let ghost before = summaries(tracks@);
    let mut i: usize = 0;
    while i < tracks.len()
        invariant
            i <= tracks@.len(),
            tracks@ == old(tracks)@,
            before == summaries(tracks@),
            forall|j: int| 0 <= j < i ==> #[trigger] tracks@[j].id != p.track_id,
        decreases tracks@.len() - i,
    {
        if tracks[i].id == p.track_id {
            proof {
                lemma_first_with_id(before, p.track_id);
                let f = first_with_id(before, p.track_id);
                if f < i {
                    assert(before[f].0 == tracks@[f].id);
                }
                assert(before[i as int].0 == p.track_id);
            }
            let ghost p_copy = p;
            tracks[i].plugin_instances.push(p);
            assert(summaries(tracks@) =~= attach_one(before, p_copy));
            return;
        }
        i = i + 1;
    }
    proof {
        lemma_first_with_id(before, p.track_id);
        let f = first_with_id(before, p.track_id);
        if f < before.len() {
            assert(before[f].0 == tracks@[f].id);
        }
    }
    assert(summaries(tracks@) =~= attach_one(before, p));
}

/// Add each of `instances`, in order, to the first track whose id is its track id. Instances
/// whose track does not exist are dropped.
pub fn attach_plugin_instances<V>(tracks: &mut Vec<Track<V>>, instances: Vec<PluginInstance>)
    ensures
        summaries(final(tracks)@) == attach_all(summaries(old(tracks)@), instances@),
{
    let ghost all = instances@;
    let mut rest = instances;
    let ghost start = summaries(tracks@);
    while rest.len() > 0
        invariant
            rest@.len() <= all.len(),
            rest@ == all.skip(all.len() - rest@.len()),
            summaries(tracks@) == attach_all(start, all.take(all.len() - rest@.len())),
        decreases rest@.len(),
    {
        let ghost done = all.len() - rest@.len();
        let p = rest.remove(0);
        assert(p == all[done]);
        attach_plugin_instance(tracks, p);
        assert(all.take(done + 1).drop_last() =~= all.take(done));
        assert(rest@ =~= all.skip(done + 1));
    }
    assert(all.take(all.len() as int) =~= all);
}

/// The reported form of the tracks of a bats instance, with no plugin instances yet.
pub fn track_summaries<V: Copy, I>(tracks: &Vec<TrackEntry<V, I>>) -> (r: Vec<Track<V>>)
    ensures
        r@.len() == tracks@.len(),
        forall|i: int|
            0 <= i < r@.len() ==> #[trigger] summary(r@[i]) == (
                tracks@[i].id,
                Seq::<PluginInstance>::empty(),
                tracks@[i].enabled,
                tracks@[i].volume,
            ),
{
    let mut out: Vec<Track<V>> = Vec::with_capacity(tracks.len());
    let mut i: usize = 0;
    while i < tracks.len()
        invariant
            i <= tracks@.len(),
            out@.len() == i,
            forall|j: int|
                0 <= j < i ==> #[trigger] summary(out@[j]) == (
                    tracks@[j].id,
                    Seq::<PluginInstance>::empty(),
                    tracks@[j].enabled,
                    tracks@[j].volume,
                ),
        decreases tracks@.len() - i,
    {
        let t = &tracks[i];
        out.push(Track { id: t.id, plugin_instances: Vec::new(), enabled: t.enabled, volume: t.volume });
        i = i + 1;
    }
    out
}

} // verus!
