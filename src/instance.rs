//! The registry of named scenes that an application draws into each frame.
use vello::Scene;
use vstd::prelude::*;

verus! {

#[verifier::external_type_specification]
#[verifier::external_body]
pub struct ExScene(Scene);

/// Relies on vello::Scene::new: a scene with nothing drawn in it.
#[verifier::external_body]
fn empty_scene() -> Scene {
    Scene::new()
}

/// Relies on vello::Scene::reset: clears what was drawn in the scene.
#[verifier::external_body]
fn reset_scene(scene: &mut Scene) {
    scene.reset()
}

/// The id that the last entry named `name` gives, if any entry has that name.
pub open spec fn lookup(entries: Seq<(Seq<char>, usize)>, name: Seq<char>) -> Option<usize>
    decreases entries.len(),
{
    if entries.len() == 0 {
        None
    } else if entries.last().0 == name {
        Some(entries.last().1)
    } else {
        lookup(entries.drop_last(), name)
    }
}

/// The root of all scenes. Scene ids count from 1 in order of creation; a
/// name refers to the scene last created under it.
pub struct Instance {
    max_scene_id: usize,
    scenes: Vec<Scene>,
    scene_names: Vec<(String, usize)>,
    resolution: (u32, u32),
}

impl Instance {
    /// The names given to scenes, with their ids, oldest first.
    pub closed spec fn entries(&self) -> Seq<(Seq<char>, usize)> {
        self.scene_names@.map_values(|e: (String, usize)| (e.0@, e.1))
    }

    /// The id of the last scene created.
    pub closed spec fn spec_max_scene_id(&self) -> usize {
        self.max_scene_id
    }

    /// The scene with id `id`.
    pub closed spec fn spec_scene(&self, id: usize) -> Scene {
        self.scenes@[id - 1]
    }

    pub closed spec fn spec_resolution(&self) -> (u32, u32) {
        self.resolution
    }

    /// The id of the scene that `name` refers to.
    pub open spec fn scene_id_of(&self, name: Seq<char>) -> Option<usize> {
        lookup(self.entries(), name)
    }

    /// One scene for each id, and every name refers to an id that exists.
    pub closed spec fn wf(&self) -> bool {
        &&& self.scenes@.len() == self.max_scene_id
        &&& forall|i: int|
            0 <= i < self.scene_names@.len() ==> 1 <= #[trigger] self.scene_names@[i].1
                <= self.max_scene_id
    }

    /// An instance with no scene and a zero resolution.
    pub fn new() -> (r: Instance)
        ensures
            r.wf(),
            r.spec_max_scene_id() == 0,
            r.entries() == Seq::<(Seq<char>, usize)>::empty(),
            r.spec_resolution() == (0u32, 0u32),
    {
        let r = Instance {
            max_scene_id: 0,
            scenes: Vec::new(),
            scene_names: Vec::new(),
            resolution: (0, 0),
        };
        assert(r.entries() =~= Seq::<(Seq<char>, usize)>::empty());
        r
    }

    /// The id of the last scene created, 0 when there is none.
    pub fn max_scene_id(&self) -> (r: usize)
        ensures
            r == self.spec_max_scene_id(),
    {
        self.max_scene_id
    }

    /// The id of the scene that `name` refers to, if any.
    pub fn scene_id(&self, name: &str) -> (r: Option<usize>)
        requires
            self.wf(),
        ensures
            r == self.scene_id_of(name@),
            r matches Some(id) ==> 1 <= id <= self.spec_max_scene_id(),
    {
        let wanted = name.to_owned();
        let mut i: usize = self.scene_names.len();
        assert(self.entries().take(i as int) =~= self.entries());
        while i > 0
            invariant
                i <= self.scene_names@.len(),
                self.wf(),
                wanted@ == name@,
                lookup(self.entries(), name@) == lookup(self.entries().take(i as int), name@),
            decreases i,
        {
            let ghost prefix = self.entries().take(i as int);
            assert(prefix.drop_last() =~= self.entries().take(i - 1));
            if self.scene_names[i - 1].0 == wanted {
                assert(self.scene_names@[i - 1].1 == prefix.last().1);
                return Some(self.scene_names[i - 1].1);
            }
            i = i - 1;
        }
        None
    }

    /// Creates a new scene under `name`, with the next id, and hands it out.
    /// `name` refers to it from now on.
    pub fn new_scene(&mut self, name: &str) -> (r: Option<&mut Scene>)
        requires
            old(self).wf(),
            old(self).spec_max_scene_id() < usize::MAX,
        ensures
            r is Some,
            final(self).wf(),
            final(self).spec_max_scene_id() == old(self).spec_max_scene_id() + 1,
            final(self).entries() == old(self).entries().push(
                (name@, final(self).spec_max_scene_id()),
            ),
            final(self).spec_resolution() == old(self).spec_resolution(),
    {
        self.max_scene_id = self.max_scene_id + 1;
        self.scenes.push(empty_scene());
        self.scene_names.push((name.to_owned(), self.max_scene_id));
        assert(self.entries() =~= old(self).entries().push((name@, self.max_scene_id)));
        let idx = self.max_scene_id - 1;
        Some(&mut self.scenes[idx])
    }

    /// The scene that `name` refers to, if there is one.
    pub fn get_scene(&mut self, name: &str) -> (r: Option<&mut Scene>)
        requires
            old(self).wf(),
        ensures
            r is Some <==> old(self).scene_id_of(name@) is Some,
            r matches Some(s) ==> *s == old(self).spec_scene(old(self).scene_id_of(name@)->0),
            final(self).wf(),
            final(self).spec_max_scene_id() == old(self).spec_max_scene_id(),
            final(self).entries() == old(self).entries(),
            final(self).spec_resolution() == old(self).spec_resolution(),
    {
        match self.scene_id(name) {
            Some(id) => Some(&mut self.scenes[id - 1]),
            None => None,
        }
    }

    /// The number of scenes.
    pub fn scene_count(&self) -> (r: usize)
        requires
            self.wf(),
        ensures
            r == self.spec_max_scene_id(),
    {
        self.scenes.len()
    }

    /// The scene with id `id`.
    pub fn scene(&self, id: usize) -> (r: &Scene)
        requires
            self.wf(),
            1 <= id <= self.spec_max_scene_id(),
        ensures
            *r == self.spec_scene(id),
    {
        &self.scenes[id - 1]
    }

    /// The resolution of the window, in pixels.
    pub fn resolution(&self) -> (r: (u32, u32))
        ensures
            r == self.spec_resolution(),
    {
        self.resolution
    }

    /// Records the resolution of the window, in pixels.
    pub fn set_resolution(&mut self, x: u32, y: u32)
        requires
            old(self).wf(),
        ensures
            final(self).wf(),
            final(self).spec_resolution() == (x, y),
            final(self).spec_max_scene_id() == old(self).spec_max_scene_id(),
            final(self).entries() == old(self).entries(),
    {
        self.resolution = (x, y);
    }
}

impl Default for Instance {
    fn default() -> (r: Instance)
        ensures
            r.wf(),
            r.spec_max_scene_id() == 0,
            r.entries() == Seq::<(Seq<char>, usize)>::empty(),
            r.spec_resolution() == (0u32, 0u32),
    {
        Instance::new()
    }
}

/// Clears every scene, to be drawn again in the next frame; the scenes and
/// their names stay.
pub fn bella_instance_reset(root: &mut Instance)
    requires
        old(root).wf(),
    ensures
        final(root).wf(),
        final(root).spec_max_scene_id() == old(root).spec_max_scene_id(),
        final(root).entries() == old(root).entries(),
        final(root).spec_resolution() == old(root).spec_resolution(),
{
    let n = root.scenes.len();
    let mut i: usize = 0;
    while i < n
        invariant
            i <= n,
            n == root.scenes@.len(),
            root.wf(),
            root.spec_max_scene_id() == old(root).spec_max_scene_id(),
            root.entries() == old(root).entries(),
            root.spec_resolution() == old(root).spec_resolution(),
        decreases n - i,
    {
        reset_scene(&mut root.scenes[i]);
        i = i + 1;
    }
}

} // verus!
