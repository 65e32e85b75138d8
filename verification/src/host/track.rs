use vstd::prelude::*;

verus! {

/// Contains information for a single track. `V` is the type of the volume, `I` the type of a
/// running plugin instance.
#[derive(Clone, Debug, PartialEq)]
pub struct Track<V, I> {
    /// An identifier for this track.
    pub id: u32,
    /// The plugin instances on the track, in processing order.
    pub plugin_instances: Vec<PluginInstance<I>>,
    /// If the track should be enabled.
    pub enabled: bool,
    /// The amount to output.
    pub volume: V,
}

/// A plugin instance.
#[derive(Clone, Debug, PartialEq)]
pub struct PluginInstance<I> {
    /// The id of the plugin instance.
    pub instance_id: u32,
    /// The id of the plugin.
    pub plugin_id: u32,
    /// The plugin instance.
    pub instance: I,
}

/// True if the track holds a plugin instance with id `instance_id`.
pub open spec fn has_instance<V, I>(t: Track<V, I>, instance_id: u32) -> bool {
    exists|j: int|
        0 <= j < t.plugin_instances@.len() && #[trigger] t.plugin_instances@[j].instance_id
            == instance_id
}

/// `i` is the first index of `tracks` whose track has id `id`.
pub open spec fn is_first_track<V, I>(tracks: Seq<Track<V, I>>, id: u32, i: int) -> bool {
    &&& 0 <= i < tracks.len()
    &&& tracks[i].id == id
    &&& forall|j: int| 0 <= j < i ==> #[trigger] tracks[j].id != id
}

/// No track of `tracks` has id `id`.
pub open spec fn no_track<V, I>(tracks: Seq<Track<V, I>>, id: u32) -> bool {
    forall|j: int| 0 <= j < tracks.len() ==> #[trigger] tracks[j].id != id
}

/// The index of the first track with id `id`, or `None` if there is none.
pub fn find_track<V, I>(tracks: &Vec<Track<V, I>>, id: u32) -> (r: Option<usize>)
    ensures
        r matches Some(i) ==> is_first_track(tracks@, id, i as int),
        r is None ==> no_track(tracks@, id),
{
    let mut i: usize = 0;
    while i < tracks.len()
        invariant
            i <= tracks@.len(),
            forall|j: int| 0 <= j < i ==> #[trigger] tracks@[j].id != id,
        decreases tracks@.len() - i,
    {
        if tracks[i].id == id {
            return Some(i);
        }
        i = i + 1;
    }
    None
}

/// Remove the first track with id `id` and return it, or return `None` and change nothing if
/// there is no such track.
pub fn remove_track<V, I>(tracks: &mut Vec<Track<V, I>>, id: u32) -> (r: Option<Track<V, I>>)
    ensures
        r matches Some(t) ==> exists|i: int|
            is_first_track(old(tracks)@, id, i) && t == old(tracks)@[i] && final(tracks)@ == old(
                tracks,
            )@.remove(i),
        r is None ==> no_track(old(tracks)@, id) && final(tracks)@ == old(tracks)@,
{
    match find_track(tracks, id) {
        Some(i) => Some(tracks.remove(i)),
        None => None,
    }
}

/// Add `instance` at the end of the plugin instances of the first track with id `track_id`.
/// If there is no such track, nothing changes and `instance` is handed back.
pub fn add_plugin_instance<V, I>(
    tracks: &mut Vec<Track<V, I>>,
    track_id: u32,
    instance: PluginInstance<I>,
) -> (r: Option<PluginInstance<I>>)
    ensures
        r is None ==> exists|i: int|
            is_first_track(old(tracks)@, track_id, i) && final(tracks)@.len() == old(tracks)@.len()
                && (forall|j: int|
                0 <= j < old(tracks)@.len() && j != i ==> #[trigger] final(tracks)@[j] == old(
                    tracks,
                )@[j]) && final(tracks)@[i].id == old(tracks)@[i].id && final(tracks)@[i].enabled
                == old(tracks)@[i].enabled && final(tracks)@[i].volume == old(tracks)@[i].volume
                && final(tracks)@[i].plugin_instances@ == old(tracks)@[i].plugin_instances@.push(
                instance,
            ),
        r matches Some(p) ==> p == instance && no_track(old(tracks)@, track_id) && final(tracks)@
            == old(tracks)@,
{
    match find_track(tracks, track_id) {
        Some(i) => {
            tracks[i].plugin_instances.push(instance);
            None
        },
        None => Some(instance),
    }
}

/// The index of the first plugin instance with id `instance_id`, or `None` if there is none.
pub fn find_plugin_instance<I>(instances: &Vec<PluginInstance<I>>, instance_id: u32) -> (r: Option<
    usize,
>)
    ensures
        r matches Some(i) ==> 0 <= i < instances@.len() && instances@[i as int].instance_id
            == instance_id && forall|j: int|
            0 <= j < i ==> #[trigger] instances@[j].instance_id != instance_id,
        r is None ==> forall|j: int|
            0 <= j < instances@.len() ==> #[trigger] instances@[j].instance_id != instance_id,
{
    let mut i: usize = 0;
    while i < instances.len()
        invariant
            i <= instances@.len(),
            forall|j: int| 0 <= j < i ==> #[trigger] instances@[j].instance_id != instance_id,
        decreases instances@.len() - i,
    {
        if instances[i].instance_id == instance_id {
            return Some(i);
        }
        i = i + 1;
    }
    None
}

/// The id of the first track that holds a plugin instance with id `instance_id`, or `None` if
/// there is none.
pub fn track_id_for_plugin_instance<V, I>(tracks: &Vec<Track<V, I>>, instance_id: u32) -> (r: Option<
    u32,
>)
    ensures
        r matches Some(id) ==> exists|i: int|
            0 <= i < tracks@.len() && tracks@[i].id == id && has_instance(tracks@[i], instance_id)
                && forall|j: int| 0 <= j < i ==> !has_instance(#[trigger] tracks@[j], instance_id),
        r is None ==> forall|j: int|
            0 <= j < tracks@.len() ==> !has_instance(#[trigger] tracks@[j], instance_id),
{
    let mut i: usize = 0;
    while i < tracks.len()
        invariant
            i <= tracks@.len(),
            forall|j: int| 0 <= j < i ==> !has_instance(#[trigger] tracks@[j], instance_id),
        decreases tracks@.len() - i,
    {
        if let Some(_) = find_plugin_instance(&tracks[i].plugin_instances, instance_id) {
            return Some(tracks[i].id);
        }
        i = i + 1;
    }
    None
}

/// Remove the plugin instance with id `instance_id` from the first track that holds one and
/// return it, or return `None` and change nothing if no track holds one.
pub fn remove_plugin_instance<V, I>(tracks: &mut Vec<Track<V, I>>, instance_id: u32) -> (r: Option<
    PluginInstance<I>,
>)
    ensures
        final(tracks)@.len() == old(tracks)@.len(),
        r matches Some(p) ==> p.instance_id == instance_id && exists|i: int, k: int|
            0 <= i < old(tracks)@.len() && (forall|j: int|
                0 <= j < i ==> !has_instance(#[trigger] old(tracks)@[j], instance_id))
                && 0 <= k < old(tracks)@[i].plugin_instances@.len()
                && old(tracks)@[i].plugin_instances@[k] == p
                && final(tracks)@[i].plugin_instances@ == old(tracks)@[i].plugin_instances@.remove(k)
                && final(tracks)@[i].id == old(tracks)@[i].id
                && final(tracks)@[i].enabled == old(tracks)@[i].enabled
                && final(tracks)@[i].volume == old(tracks)@[i].volume
                && forall|j: int|
                0 <= j < old(tracks)@.len() && j != i ==> #[trigger] final(tracks)@[j] == old(
                    tracks,
                )@[j],
        r is None ==> final(tracks)@ == old(tracks)@ && forall|j: int|
            0 <= j < old(tracks)@.len() ==> !has_instance(#[trigger] old(tracks)@[j], instance_id),
{
    let mut i: usize = 0;
    while i < tracks.len()
        invariant
            i <= tracks@.len(),
            tracks@ == old(tracks)@,
            forall|j: int| 0 <= j < i ==> !has_instance(#[trigger] tracks@[j], instance_id),
        decreases tracks@.len() - i,
    {
        if let Some(k) = find_plugin_instance(&tracks[i].plugin_instances, instance_id) {
            let p = tracks[i].plugin_instances.remove(k);
            return Some(p);
        }
        i = i + 1;
    }
    None
}

/// The plugin instances of track `t` as `(track id, instance id, plugin id)`.
pub open spec fn track_instance_ids<V, I>(t: Track<V, I>) -> Seq<(u32, u32, u32)> {
    t.plugin_instances@.map_values(|p: PluginInstance<I>| (t.id, p.instance_id, p.plugin_id))
}

/// The plugin instances of all tracks as `(track id, instance id, plugin id)`, track by track.
pub open spec fn all_instance_ids<V, I>(tracks: Seq<Track<V, I>>) -> Seq<(u32, u32, u32)>
    decreases tracks.len(),
{
    if tracks.len() == 0 {
        Seq::empty()
    } else {
        all_instance_ids(tracks.drop_last()) + track_instance_ids(tracks.last())
    }
}

/// The plugin instances of all tracks as `(track id, instance id, plugin id)`, track by track.
pub fn plugin_instance_ids<V, I>(tracks: &Vec<Track<V, I>>) -> (r: Vec<(u32, u32, u32)>)
    ensures
        r@ == all_instance_ids(tracks@),
{
    let mut out: Vec<(u32, u32, u32)> = Vec::new();
    let mut i: usize = 0;
    while i < tracks.len()
        invariant
            i <= tracks@.len(),
            out@ == all_instance_ids(tracks@.take(i as int)),
        decreases tracks@.len() - i,
    {
        let t = &tracks[i];
        let ghost before = out@;
        let mut k: usize = 0;
        while k < t.plugin_instances.len()
            invariant
                i < tracks@.len(),
                *t == tracks@[i as int],
                k <= t.plugin_instances@.len(),
                out@ == before + track_instance_ids(*t).take(k as int),
            decreases t.plugin_instances@.len() - k,
        {
            let p = &t.plugin_instances[k];
            out.push((t.id, p.instance_id, p.plugin_id));
            assert(track_instance_ids(*t).take(k + 1) =~= track_instance_ids(*t).take(k as int).push(
                (t.id, p.instance_id, p.plugin_id),
            ));
            k = k + 1;
        }
        assert(track_instance_ids(*t).take(k as int) =~= track_instance_ids(*t));
        assert(tracks@.take(i + 1).drop_last() =~= tracks@.take(i as int));
        i = i + 1;
    }
    assert(tracks@.take(i as int) =~= tracks@);
    out
}

} // verus!
verus! {

/// Track ids are distinct.
pub open spec fn unique_ids<V, I>(tracks: Seq<Track<V, I>>) -> bool {
    forall|a: int, b: int|
        0 <= a < tracks.len() && 0 <= b < tracks.len() && a != b ==> #[trigger] tracks[a].id
            != #[trigger] tracks[b].id
}

/// When track ids are distinct, once the track with id `id` is removed no track has that id,
/// and the ids stay distinct.
pub proof fn lemma_removed_track_is_gone<V, I>(tracks: Seq<Track<V, I>>, id: u32, i: int)
    requires
        unique_ids(tracks),
        is_first_track(tracks, id, i),
    ensures
        no_track(tracks.remove(i), id),
        unique_ids(tracks.remove(i)),
{
    let rest = tracks.remove(i);
    assert forall|j: int| 0 <= j < rest.len() implies #[trigger] rest[j].id != id by {
        if j < i {
            assert(rest[j] == tracks[j]);
        } else {
            assert(rest[j] == tracks[j + 1]);
        }
    }
    assert forall|a: int, b: int|
        0 <= a < rest.len() && 0 <= b < rest.len() && a != b implies #[trigger] rest[a].id
            != #[trigger] rest[b].id by {
        let a2 = if a < i { a } else { a + 1 };
        let b2 = if b < i { b } else { b + 1 };
        assert(rest[a] == tracks[a2]);
        assert(rest[b] == tracks[b2]);
    }
}

} // verus!
