use vstd::prelude::*;

verus! {

/// The textures manager: a cache of the textures loaded so far, by name, and
/// the default (white) texture. Textures are known by the id the graphics
/// driver gave them.
pub struct TexturesManager {
    default_texture: u32,
    names: Vec<String>,
    ids: Vec<u32>,
}

impl TexturesManager {
    /// The cached textures, by name.
    pub closed spec fn cache(&self) -> Map<Seq<char>, u32> {
        Map::new(
            |name: Seq<char>| exists|i: int| 0 <= i < self.names@.len() && #[trigger] self.names@[i]@ == name,
            |name: Seq<char>| {
                let i = choose|i: int| 0 <= i < self.names@.len() && #[trigger] self.names@[i]@ == name;
                self.ids@[i]
            },
        )
    }

    /// The default texture.
    pub closed spec fn default_texture(&self) -> u32 {
        self.default_texture
    }

    /// Each name is cached once, with one id.
    pub closed spec fn wf(&self) -> bool {
        &&& self.names@.len() == self.ids@.len()
        &&& forall|i: int, j: int|
            0 <= i < self.names@.len() && 0 <= j < self.names@.len() && i != j ==> #[trigger] self.names@[i]@
                != #[trigger] self.names@[j]@
    }

    /// An empty cache around the default texture `default_texture`.
    pub fn new(default_texture: u32) -> (r: TexturesManager)
        ensures
            r.wf(),
            r.cache() == Map::<Seq<char>, u32>::empty(),
            r.default_texture() == default_texture,
    {
        let r = TexturesManager { default_texture, names: Vec::new(), ids: Vec::new() };
        assert(r.cache() =~= Map::<Seq<char>, u32>::empty());
        r
    }

    /// The default, completely white, texture.
    pub fn get_default(&self) -> (r: u32)
        ensures
            r == self.default_texture(),
    {
        self.default_texture
    }

    fn find(&self, name: &str) -> (r: Option<usize>)
        requires
            self.wf(),
        ensures
            match r {
                Some(i) => i < self.names@.len() && self.names@[i as int]@ == name@,
                None => forall|i: int| 0 <= i < self.names@.len() ==> #[trigger] self.names@[i]@ != name@,
            },
    {
        let key = String::from_str(name);
        let mut i: usize = 0;
        while i < self.names.len()
            invariant
                i <= self.names@.len(),
                key@ == name@,
                forall|j: int| 0 <= j < i ==> #[trigger] self.names@[j]@ != name@,
            decreases self.names@.len() - i,
        {
            if self.names[i] == key {
                return Some(i);
            }
            i = i + 1;
        }
        None
    }

    /// The texture cached under `name`, if any.
    pub fn get(&self, name: &str) -> (r: Option<u32>)
        requires
            self.wf(),
        ensures
            r == if self.cache().contains_key(name@) {
                Some(self.cache()[name@])
            } else {
                None::<u32>
            },
    {
        match self.find(name) {
            Some(i) => {
                proof {
                    assert(self.cache().contains_key(name@));
                    let j = choose|j: int| 0 <= j < self.names@.len() && #[trigger] self.names@[j]@ == name@;
                    assert(j == i as int);
                }
                Some(self.ids[i])
            },
            None => None,
        }
    }

    /// The texture cached under `name`; when there is none, `create` allocates
    /// a new, unconfigured one, which is cached under `name` and returned.
    pub fn add_empty<F: FnOnce() -> u32>(&mut self, name: &str, create: F) -> (r: u32)
        requires
            old(self).wf(),
            old(self).cache().contains_key(name@) || create.requires(()),
        ensures
            final(self).wf(),
            final(self).default_texture() == old(self).default_texture(),
            empty_added(old(self).cache(), final(self).cache(), name@, r),
            !old(self).cache().contains_key(name@) ==> create.ensures((), r),
    {
        match self.find(name) {
            Some(i) => {
                proof {
                    let j = choose|j: int| 0 <= j < self.names@.len() && #[trigger] self.names@[j]@ == name@;
                    assert(j == i as int);
                }
                self.ids[i]
            },
            None => {
                proof {
                    assert(!self.cache().contains_key(name@));
                }
                let id = create();
                let ghost old_names = self.names@;
                self.names.push(String::from_str(name));
                self.ids.push(id);
                proof {
                    let n = old_names.len() as int;
                    assert(self.names@[n]@ == name@);
                    assert forall|k: Seq<char>| #[trigger] self.cache().contains_key(k) <==> old(self).cache().insert(name@, id).contains_key(k) by {
                        if self.cache().contains_key(k) {
                            let j = choose|j: int| 0 <= j < self.names@.len() && #[trigger] self.names@[j]@ == k;
                            if j < n {
                                assert(old_names[j]@ == k);
                            }
                        }
                        if old(self).cache().contains_key(k) {
                            let j = choose|j: int| 0 <= j < old_names.len() && #[trigger] old_names[j]@ == k;
                            assert(self.names@[j]@ == k);
                        }
                    }
                    assert forall|k: Seq<char>| #[trigger] self.cache().contains_key(k) implies self.cache()[k] == old(self).cache().insert(name@, id)[k] by {
                        let j = choose|j: int| 0 <= j < self.names@.len() && #[trigger] self.names@[j]@ == k;
                        if k == name@ {
                            assert(j == n);
                        } else {
                            assert(j < n);
                            assert(old_names[j]@ == k);
                            let j0 = choose|j0: int| 0 <= j0 < old_names.len() && #[trigger] old_names[j0]@ == k;
                            assert(j0 == j);
                        }
                    }
                    assert(self.cache() =~= old(self).cache().insert(name@, id));
                }
                id
            },
        }
    }
}

/// Whether the cache `m1` and the result `r` are what `add_empty` makes of
/// the cache `m0` for `name`: the cached texture, the cache unchanged; or a new
/// texture `r`, now cached under `name`.
pub open spec fn empty_added(m0: Map<Seq<char>, u32>, m1: Map<Seq<char>, u32>, name: Seq<char>, r: u32) -> bool {
    if m0.contains_key(name) {
        r == m0[name] && m1 == m0
    } else {
        m1 == m0.insert(name, r)
    }
}

/// A texture is created at most once per name: after `add_empty`, the name
/// gives back that texture, and asking for it again returns the same texture
/// and leaves the cache as it is.
pub proof fn lemma_add_empty_idempotent(
    m0: Map<Seq<char>, u32>,
    m1: Map<Seq<char>, u32>,
    m2: Map<Seq<char>, u32>,
    name: Seq<char>,
    r1: u32,
    r2: u32,
)
    requires
        empty_added(m0, m1, name, r1),
        empty_added(m1, m2, name, r2),
    ensures
        m1.contains_key(name),
        m1[name] == r1,
        r2 == r1,
        m2 == m1,
{
}

} // verus!
