//! Texture identifiers and the atlas that buckets images by size.
//!
//! The atlas owns the raw pixels of every loaded image, sorted into one bucket
//! per allowed square size.  Each bucket is backed by one texture array on the
//! graphics device; the arrays are rebuilt as a whole the first time a frame
//! is prepared after a load.  The atlas records the shape of the arrays that
//! were built last, the device objects themselves are the caller's.

use vstd::prelude::*;

verus! {

/// Number of buckets, one per allowed texture size.
pub const BUCKET_COUNT: usize = 8;

/// The allowed side lengths of a square texture, smallest first.
pub open spec fn allowed_sizes() -> Seq<u32> {
    seq![16u32, 32u32, 64u32, 128u32, 256u32, 512u32, 1024u32, 2048u32]
}

/// The bucket that holds textures of the given side length, if there is one.
pub open spec fn bucket_of(side: u32) -> Option<int> {
    if side == 16 {
        Some(0)
    } else if side == 32 {
        Some(1)
    } else if side == 64 {
        Some(2)
    } else if side == 128 {
        Some(3)
    } else if side == 256 {
        Some(4)
    } else if side == 512 {
        Some(5)
    } else if side == 1024 {
        Some(6)
    } else if side == 2048 {
        Some(7)
    } else {
        None
    }
}

/// An image can be loaded when it is square and its side is an allowed size.
pub open spec fn loadable(width: u32, height: u32) -> bool {
    width == height && bucket_of(width) is Some
}

/// Identifies a loaded texture by the position of its load request.
#[derive(Copy, Clone, Debug)]
pub struct TextureId {
    id: u32,
}

impl TextureId {
    /// The number that this identifier stands for.
    pub closed spec fn view(&self) -> nat {
        self.id as nat
    }

    /// The identifier of the `id`-th load request, counted from zero.
    pub fn from_raw(id: u32) -> (result: Self)
        ensures
            result@ == id,
    {
        TextureId { id }
    }

    /// The position of the load request that produced this identifier.
    pub fn raw(&self) -> (id: u32)
        ensures
            id == self@,
    {
        self.id
    }
}

/// Where a texture lives: which bucket's array, and which layer of it.
#[derive(Copy, Clone, Debug, PartialEq, Eq, Structural)]
pub struct TextureLocation {
    pub array: u32,
    pub index: u32,
}

/// Why the atlas turned a request down.
#[derive(Copy, Clone, Debug)]
pub enum TextureError {
    /// The image is not square, or its side is not an allowed size.
    InvalidTextureSize { width: u32, height: u32 },
    /// No texture was loaded under this identifier.
    UnknownTextureId { id: u32 },
    /// A texture was announced under `requested`, but the atlas would hand
    /// out `next`: the two sides no longer count alike.
    OutOfOrderTextureId { requested: u32, next: u32 },
}

/// Decoded RGBA pixels of one image, with its dimensions.
pub struct RawImageData {
    pub pixels: Vec<u8>,
    pub width: u32,
    pub height: u32,
}

/// The shape of one bucket's texture array on the graphics device.
#[derive(Copy, Clone, Debug, PartialEq, Eq, Structural)]
pub struct ArrayShape {
    pub side: u32,
    pub layers: u32,
}

/// The array that is built for a bucket of `count` images of side `side`:
/// one layer per image, or a single 1x1 layer where the bucket is empty, so
/// that a sampler can always be bound.
pub open spec fn array_shape(side: u32, count: nat) -> ArrayShape {
    if count == 0 {
        ArrayShape { side: 1, layers: 1 }
    } else {
        ArrayShape { side, layers: count as u32 }
    }
}

/// Whether the device arrays match the loaded images.
#[derive(Copy, Clone, Debug, PartialEq, Eq, Structural)]
pub enum AtlasState {
    /// The arrays were built from the images that are loaded now.
    Clean,
    /// An image was loaded since the arrays were built, or none were built yet.
    Dirty,
}

/// What the atlas holds, as mathematics.
pub struct AtlasView {
    /// The pixels of the loaded images: per bucket, in load order.
    pub images: Seq<Seq<Seq<u8>>>,
    /// The location of every loaded texture, indexed by its identifier.
    pub registry: Seq<TextureLocation>,
    /// The shapes of the device arrays, one per bucket, while they match the
    /// loaded images; `None` while the atlas is dirty.
    pub arrays: Option<Seq<ArrayShape>>,
}

impl AtlasView {
    /// The atlas before anything was loaded: empty buckets, nothing built.
    pub open spec fn empty() -> AtlasView {
        AtlasView {
            images: Seq::new(BUCKET_COUNT as nat, |b: int| Seq::<Seq<u8>>::empty()),
            registry: Seq::empty(),
            arrays: None,
        }
    }

    /// The shapes of the arrays that a rebuild makes from the loaded images.
    pub open spec fn fresh_arrays(self) -> Seq<ArrayShape> {
        Seq::new(
            BUCKET_COUNT as nat,
            |b: int| array_shape(allowed_sizes()[b], self.images[b].len()),
        )
    }

    /// The atlas after an image of side `side` was loaded: its pixels are
    /// appended to its bucket, the next identifier points at them, and the
    /// arrays are stale.
    pub open spec fn load(self, pixels: Seq<u8>, side: u32) -> AtlasView
        recommends
            bucket_of(side) is Some,
    {
        let b = bucket_of(side).unwrap();
        AtlasView {
            images: self.images.update(b, self.images[b].push(pixels)),
            registry: self.registry.push(
                TextureLocation { array: b as u32, index: self.images[b].len() as u32 },
            ),
            arrays: None,
        }
    }

    /// The identifier that the next successful load hands out.
    pub open spec fn next_id(self) -> nat {
        self.registry.len()
    }

    /// The atlas after the images were loaded one after the other, first to
    /// last; each is a pair of pixels and side length.
    pub open spec fn load_all(self, images: Seq<(Seq<u8>, u32)>) -> AtlasView
        decreases images.len(),
    {
        if images.len() == 0 {
            self
        } else {
            self.load_all(images.drop_last()).load(images.last().0, images.last().1)
        }
    }

    /// The atlas after a frame was prepared: the arrays match the images.
    pub open spec fn prepare(self) -> AtlasView {
        AtlasView { arrays: Some(self.fresh_arrays()), ..self }
    }

    /// Where the texture `id` lives, if it was loaded.
    pub open spec fn resolve(self, id: nat) -> Option<TextureLocation> {
        if id < self.registry.len() {
            Some(self.registry[id as int])
        } else {
            None
        }
    }

    /// The location lies inside the arrays as they are built now.
    pub open spec fn drawable(self, location: TextureLocation) -> bool {
        &&& self.arrays is Some
        &&& location.array < self.arrays.unwrap().len()
        &&& location.index < self.arrays.unwrap()[location.array as int].layers
    }

    /// Every identifier points at an image that is there, no two at the same
    /// one, and the arrays, where built, are those of the loaded images.
    pub open spec fn wf(self) -> bool {
        &&& self.images.len() == BUCKET_COUNT
        &&& self.registry.len() <= u32::MAX
        &&& forall|b: int|
            0 <= b < BUCKET_COUNT ==> (#[trigger] self.images[b]).len() <= self.registry.len()
        &&& forall|i: int|
            0 <= i < self.registry.len() ==> {
                &&& (#[trigger] self.registry[i]).array < BUCKET_COUNT
                &&& self.registry[i].index < self.images[self.registry[i].array as int].len()
            }
        &&& forall|i: int, j: int|
            0 <= i < j < self.registry.len() ==> #[trigger] self.registry[i]
                != #[trigger] self.registry[j]
        &&& self.arrays is Some ==> self.arrays.unwrap() == self.fresh_arrays()
    }
}

/// The texture atlas: raw images bucketed by size, and the bookkeeping that
/// resolves an identifier to a layer of a bucket's array.
pub struct Textures {
    sizes: Vec<u32>,
    id_registry: Vec<TextureLocation>,
    images: Vec<Vec<RawImageData>>,
    state: AtlasState,
    arrays: Vec<ArrayShape>,
}

impl View for Textures {
    type V = AtlasView;

    closed spec fn view(&self) -> AtlasView {
        AtlasView {
            images: Seq::new(
                self.images@.len(),
                |b: int| Seq::new(self.images@[b]@.len(), |k: int| self.images@[b]@[k].pixels@),
            ),
            registry: self.id_registry@,
            arrays: if self.state == AtlasState::Clean {
                Some(self.arrays@)
            } else {
                None
            },
        }
    }
}

impl Textures {
    /// The atlas is consistent: what it holds is, and every stored image has
    /// the dimensions of its bucket.
    pub open spec fn wf(&self) -> bool {
        &&& self@.wf()
        &&& self.images_fit()
    }

    /// Every stored image has the dimensions of its bucket.
    pub closed spec fn images_fit(&self) -> bool {
        &&& self.sizes@ == allowed_sizes()
        &&& forall|b: int, k: int|
            0 <= b < self.images@.len() && 0 <= k < self.images@[b]@.len() ==> {
                &&& (#[trigger] self.images@[b]@[k]).width == allowed_sizes()[b]
                &&& self.images@[b]@[k].height == allowed_sizes()[b]
            }
    }

    /// An atlas with nothing loaded and nothing built.
    pub fn new() -> (result: Self)
        ensures
            result.wf(),
            result@ == AtlasView::empty(),
    {
        let sizes: Vec<u32> = vec![16, 32, 64, 128, 256, 512, 1024, 2048];
        let mut images: Vec<Vec<RawImageData>> = Vec::new();
        let mut b: usize = 0;
        while b < BUCKET_COUNT
            invariant
                b <= BUCKET_COUNT,
                images@.len() == b,
                forall|c: int| 0 <= c < b ==> (#[trigger] images@[c])@.len() == 0,
            decreases BUCKET_COUNT - b,
        {
            images.push(Vec::new());
            b += 1;
        }
        let result = Textures {
            sizes,
            id_registry: Vec::new(),
            images,
            state: AtlasState::Dirty,
            arrays: Vec::new(),
        };
        proof {
            assert(result.sizes@ =~= allowed_sizes());
            assert forall|c: int| 0 <= c < BUCKET_COUNT implies #[trigger] result@.images[c]
                =~= AtlasView::empty().images[c] by {
                assert(result.images@[c]@.len() == 0);
            }
            assert(result@.images =~= AtlasView::empty().images);
            assert(result@.registry =~= AtlasView::empty().registry);
        }
        result
    }

    /// How many textures were loaded.
    pub fn len(&self) -> (count: usize)
        ensures
            count == self@.registry.len(),
    {
        self.id_registry.len()
    }

    /// Whether the device arrays are stale.
    pub fn is_dirty(&self) -> (dirty: bool)
        ensures
            dirty == (self@.arrays is None),
    {
        match self.state {
            AtlasState::Clean => false,
            AtlasState::Dirty => true,
        }
    }

    /// The bucket for images of side `side`: the position of `side` among the
    /// allowed sizes.
    fn find_bucket(&self, side: u32) -> (found: Option<usize>)
        requires
            self.wf(),
        ensures
            match found {
                Some(b) => bucket_of(side) == Some(b as int),
                None => bucket_of(side) is None,
            },
    {
        let mut b: usize = 0;
        while b < self.sizes.len()
            invariant
                self.sizes@ == allowed_sizes(),
                b <= self.sizes@.len(),
                forall|c: int| 0 <= c < b ==> allowed_sizes()[c] != side,
            decreases self.sizes@.len() - b,
        {
            if self.sizes[b] == side {
                return Some(b);
            }
            b += 1;
        }
        assert(allowed_sizes()[0] != side && allowed_sizes()[1] != side && allowed_sizes()[2]
            != side && allowed_sizes()[3] != side && allowed_sizes()[4] != side
            && allowed_sizes()[5] != side && allowed_sizes()[6] != side && allowed_sizes()[7]
            != side);
        None
    }

    /// Whether `side` is an allowed side length.
    pub fn allows(&self, side: u32) -> (allowed: bool)
        requires
            self.wf(),
        ensures
            allowed == (bucket_of(side) is Some),
    {
        self.find_bucket(side).is_some()
    }

    /// Takes in a decoded image.  A square image of an allowed size joins its
    /// bucket, gets the next identifier and leaves the atlas dirty; any other
    /// image is turned down and the atlas stays as it was.
    pub fn load(&mut self, pixels: Vec<u8>, width: u32, height: u32) -> (result: Result<
        TextureId,
        TextureError,
    >)
        requires
            old(self).wf(),
            loadable(width, height) ==> old(self)@.next_id() < u32::MAX,
        ensures
            final(self).wf(),
            loadable(width, height) ==> {
                &&& result matches Ok(id)
                &&& id@ == old(self)@.next_id()
                &&& final(self)@ == old(self)@.load(pixels@, width)
            },
            !loadable(width, height) ==> {
                &&& result matches Err(TextureError::InvalidTextureSize { width: w, height: h })
                &&& w == width
                &&& h == height
                &&& *final(self) == *old(self)
            },
    {
        if width != height {
            return Err(TextureError::InvalidTextureSize { width, height });
        }
        let array = match self.find_bucket(width) {
            Some(array) => array,
            None => {
                return Err(TextureError::InvalidTextureSize { width, height });
            },
        };
        let index = self.images[array].len();
        self.images[array].push(RawImageData { pixels, width, height });
        let id = self.id_registry.len();
        self.id_registry.push(TextureLocation { array: array as u32, index: index as u32 });
        self.state = AtlasState::Dirty;
        proof {
            let before = old(self)@;
            let after = self@;
            let expected = before.load(pixels@, width);
            assert(after.registry =~= expected.registry);
            assert forall|b: int| 0 <= b < BUCKET_COUNT implies #[trigger] after.images[b]
                =~= expected.images[b] by {
                if b != array {
                    assert(self.images@[b] == old(self).images@[b]);
                }
            }
            assert(after.images =~= expected.images);
            assert(after == expected);
        }
        Ok(TextureId::from_raw(id as u32))
    }

    /// Brings the arrays up to date before a frame is drawn.  On a clean atlas
    /// nothing happens; on a dirty one the shape of every bucket's array is
    /// worked out anew from all the images of the bucket, and the result says
    /// that the device arrays have to be built again.
    pub fn prepare_for_frame(&mut self) -> (rebuilt: bool)
        requires
            old(self).wf(),
        ensures
            final(self).wf(),
            final(self)@ == old(self)@.prepare(),
            rebuilt == (old(self)@.arrays is None),
    {
        if !self.is_dirty() {
            return false;
        }
        let mut arrays: Vec<ArrayShape> = Vec::new();
        let mut b: usize = 0;
        while b < BUCKET_COUNT
            invariant
                self.wf(),
                b <= BUCKET_COUNT,
                arrays@.len() == b,
                forall|c: int| 0 <= c < b ==> #[trigger] arrays@[c] == self@.fresh_arrays()[c],
            decreases BUCKET_COUNT - b,
        {
            let count = self.images[b].len();
            let shape = if count != 0 {
                ArrayShape { side: self.sizes[b], layers: count as u32 }
            } else {
                ArrayShape { side: 1, layers: 1 }
            };
            assert(self@.images[b as int].len() == count);
            arrays.push(shape);
            b += 1;
        }
        self.arrays = arrays;
        self.state = AtlasState::Clean;
        proof {
            assert(self@.images =~~= old(self)@.images);
            assert(self@.arrays.unwrap() =~= old(self)@.fresh_arrays());
        }
        true
    }

    /// Where the texture `id` lives.  Every identifier that `load` handed out
    /// resolves; any other is unknown.
    pub fn resolve(&self, id: TextureId) -> (result: Result<TextureLocation, TextureError>)
        requires
            self.wf(),
        ensures
            match result {
                Ok(location) => self@.resolve(id@) == Some(location),
                Err(TextureError::UnknownTextureId { id: unknown }) => {
                    &&& self@.resolve(id@) is None
                    &&& unknown == id@
                },
                Err(_) => false,
            },
    {
        let raw = id.raw();
        if (raw as usize) < self.id_registry.len() {
            Ok(self.id_registry[raw as usize])
        } else {
            Err(TextureError::UnknownTextureId { id: raw })
        }
    }

    /// The shapes of the arrays to sample from, one per bucket.  They are
    /// there only once a frame was prepared after the last load.
    pub fn samplers(&self) -> (shapes: &Vec<ArrayShape>)
        requires
            self.wf(),
            self@.arrays is Some,
        ensures
            shapes@ == self@.arrays.unwrap(),
    {
        &self.arrays
    }

    /// The images of bucket `bucket`, in load order: what its array is built
    /// from.
    pub fn images(&self, bucket: usize) -> (images: &Vec<RawImageData>)
        requires
            self.wf(),
            bucket < BUCKET_COUNT,
        ensures
            images@.len() == self@.images[bucket as int].len(),
            forall|k: int|
                0 <= k < images@.len() ==> {
                    &&& (#[trigger] images@[k]).pixels@ == self@.images[bucket as int][k]
                    &&& images@[k].width == allowed_sizes()[bucket as int]
                    &&& images@[k].height == allowed_sizes()[bucket as int]
                },
    {
        &self.images[bucket]
    }
}

/// Loading hands out the next identifier, leaves every earlier location
/// where it was, and leaves the atlas dirty, however many textures there are.
/// A consistent atlas stays consistent as long as the new identifier can be
/// written in 32 bits.
pub proof fn law_load_appends(atlas: AtlasView, pixels: Seq<u8>, side: u32)
    requires
        bucket_of(side) is Some,
    ensures
        atlas.load(pixels, side).next_id() == atlas.next_id() + 1,
        atlas.load(pixels, side).resolve(atlas.next_id()) is Some,
        forall|id: nat|
            id < atlas.next_id() ==> atlas.load(pixels, side).resolve(id) == atlas.resolve(id),
        atlas.load(pixels, side).arrays is None,
        atlas.wf() && atlas.next_id() < u32::MAX ==> atlas.load(pixels, side).wf(),
{
    let after = atlas.load(pixels, side);
    if atlas.wf() && atlas.next_id() < u32::MAX {
        assert forall|i: int| 0 <= i < after.registry.len() implies {
            &&& (#[trigger] after.registry[i]).array < BUCKET_COUNT
            &&& after.registry[i].index < after.images[after.registry[i].array as int].len()
        } by {
            if i < atlas.registry.len() {
                assert(after.registry[i] == atlas.registry[i]);
            }
        }
        assert forall|i: int, j: int| 0 <= i < j < after.registry.len() implies #[trigger] after.registry[i]
            != #[trigger] after.registry[j] by {
            if j < atlas.registry.len() {
                assert(after.registry[i] == atlas.registry[i]);
                assert(after.registry[j] == atlas.registry[j]);
            } else {
                assert(after.registry[i] == atlas.registry[i]);
            }
        }
    }
}

/// Loading N images in order hands out N identifiers in that order, none
/// skipped and none used twice: the k-th image, counted from zero, is loaded
/// under the identifier `next_id() + k`.  Identifiers handed out before stay
/// where they were.  A consistent atlas stays consistent as long as the
/// identifiers can be written in 32 bits.
pub proof fn law_sequential_ids(atlas: AtlasView, images: Seq<(Seq<u8>, u32)>)
    requires
        forall|k: int| 0 <= k < images.len() ==> bucket_of(#[trigger] images[k].1) is Some,
    ensures
        atlas.load_all(images).next_id() == atlas.next_id() + images.len(),
        forall|k: int|
            0 <= k <= images.len() ==> (#[trigger] atlas.load_all(images.take(k))).next_id()
                == atlas.next_id() + k,
        forall|id: nat| id < atlas.next_id() ==> atlas.load_all(images).resolve(id) == atlas.resolve(id),
        forall|id: nat|
            id < atlas.next_id() + images.len() ==> atlas.load_all(images).resolve(id) is Some,
        atlas.wf() && atlas.next_id() + images.len() <= u32::MAX ==> atlas.load_all(images).wf(),
    decreases images.len(),
{
    if images.len() == 0 {
        assert forall|k: int| 0 <= k <= images.len() implies (#[trigger] atlas.load_all(
            images.take(k),
        )).next_id() == atlas.next_id() + k by {
            assert(images.take(k) =~= images);
        }
    } else {
        let front = images.drop_last();
        law_sequential_ids(atlas, front);
        law_load_appends(atlas.load_all(front), images.last().0, images.last().1);
        assert forall|k: int| 0 <= k <= images.len() implies (#[trigger] atlas.load_all(
            images.take(k),
        )).next_id() == atlas.next_id() + k by {
            if k == images.len() {
                assert(images.take(k) =~= images);
            } else {
                assert(images.take(k) =~= front.take(k));
            }
        }
    }
}

/// Loading N images into a new atlas hands out the identifiers 0 to N - 1 in
/// that order: the k-th image, counted from zero, is loaded under `k`.
pub proof fn law_ids_count_from_zero(images: Seq<(Seq<u8>, u32)>)
    requires
        forall|k: int| 0 <= k < images.len() ==> bucket_of(#[trigger] images[k].1) is Some,
    ensures
        AtlasView::empty().wf(),
        AtlasView::empty().next_id() == 0,
        forall|k: int|
            0 <= k <= images.len() ==> (#[trigger] AtlasView::empty().load_all(
                images.take(k),
            )).next_id() == k,
        AtlasView::empty().load_all(images).next_id() == images.len(),
{
    law_sequential_ids(AtlasView::empty(), images);
}

/// Once a frame is prepared, every loaded texture resolves to a layer that is
/// there in the arrays; preparing twice is the same as preparing once.  On a
/// dirty atlas, as it is after every load, no location is drawable.
pub proof fn law_drawable_after_prepare(atlas: AtlasView)
    requires
        atlas.wf(),
    ensures
        atlas.prepare().wf(),
        atlas.prepare().prepare() == atlas.prepare(),
        forall|id: nat|
            id < atlas.next_id() ==> {
                &&& atlas.prepare().resolve(id) == atlas.resolve(id)
                &&& atlas.prepare().drawable(#[trigger] atlas.resolve(id).unwrap())
            },
        atlas.arrays is None ==> forall|location: TextureLocation| !atlas.drawable(location),
{
    let ready = atlas.prepare();
    assert(ready.fresh_arrays() =~= atlas.fresh_arrays());
    assert forall|id: nat| id < atlas.next_id() implies ready.drawable(
        #[trigger] atlas.resolve(id).unwrap(),
    ) by {
        let location = atlas.registry[id as int];
        let shape = ready.arrays.unwrap()[location.array as int];
        assert(shape == array_shape(
            allowed_sizes()[location.array as int],
            atlas.images[location.array as int].len(),
        ));
    }
}

} // verus!
