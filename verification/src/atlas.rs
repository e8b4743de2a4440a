//! Texture atlas sync: the UI engine's coverage atlas, its mirror on the
//! GPU, and the decision when the mirror has to be written again.

use vstd::prelude::*;

verus! {

/// Number of channels of the GPU texture that mirrors the atlas.
pub const CHANNELS: u32 = 4;

/// What an atlas holds, as mathematics sees it.
pub struct TextureAtlasView {
    /// Changes whenever the contents change.
    pub version: u64,
    pub width: u32,
    pub height: u32,
    /// One coverage value for each texel, row after row.
    pub pixels: Seq<u8>,
}

impl TextureAtlasView {
    /// There is one coverage value for each texel, and a row of the GPU
    /// texture has a length in bytes that the upload can state.
    pub open spec fn wf(self) -> bool {
        &&& self.pixels.len() == self.width * self.height
        &&& CHANNELS * self.width <= u32::MAX
    }
}

/// The glyph and icon atlas of the UI engine: a version and a rectangle of
/// coverage values. A value of this type is always well formed.
#[derive(Debug)]
pub struct TextureAtlas {
    version: u64,
    width: u32,
    height: u32,
    pixels: Vec<u8>,
}

impl View for TextureAtlas {
    type V = TextureAtlasView;

    closed spec fn view(&self) -> TextureAtlasView {
        TextureAtlasView {
            version: self.version,
            width: self.width,
            height: self.height,
            pixels: self.pixels@,
        }
    }
}

/// The coverage values spread over the channels of the GPU texture: each
/// value stands in all channels of its texel.
pub open spec fn expanded(pixels: Seq<u8>) -> Seq<u8> {
    Seq::new(CHANNELS as nat * pixels.len(), |i: int| pixels[i / CHANNELS as int])
}

/// One write of a whole texture: the extent, the layout of the data in
/// memory, and the data.
#[derive(Debug)]
pub struct TextureUpload {
    pub width: u32,
    pub height: u32,
    pub bytes_per_row: u32,
    pub rows_per_image: u32,
    pub pixels: Vec<u8>,
}

impl TextureUpload {
    /// The upload writes exactly the atlas: its extent, rows of four bytes
    /// per texel with no padding, and the coverage of each texel in all
    /// channels.
    pub open spec fn is_full_upload_of(self, atlas: TextureAtlasView) -> bool {
        &&& self.width == atlas.width
        &&& self.height == atlas.height
        &&& self.bytes_per_row == CHANNELS * atlas.width
        &&& self.rows_per_image == atlas.height
        &&& self.pixels@ == expanded(atlas.pixels)
    }
}

/// Spreads coverage values over the channels of the GPU texture.
pub fn expand_coverage(pixels: &[u8]) -> (out: Vec<u8>)
    ensures
        out@ == expanded(pixels@),
{
    let mut out: Vec<u8> = Vec::new();
    let mut i: usize = 0;
    while i < pixels.len()
        invariant
            i <= pixels@.len(),
            out@ == expanded(pixels@.subrange(0, i as int)),
        decreases pixels@.len() - i,
    {
        let value = pixels[i];
        let ghost before = out@;
        out.push(value);
        out.push(value);
        out.push(value);
        out.push(value);
        proof {
            let done = pixels@.subrange(0, i as int);
            let next = pixels@.subrange(0, i as int + 1);
            assert(out@.len() == expanded(next).len());
            assert forall|k: int| 0 <= k < out@.len() implies out@[k] == expanded(next)[k] by {
                if k < before.len() {
                    assert(out@[k] == before[k]);
                    assert(before[k] == done[k / 4]);
                    assert(next[k / 4] == done[k / 4]);
                } else {
                    assert(k / 4 == i);
                }
            }
        }
        i += 1;
    }
    assert(pixels@.subrange(0, i as int) == pixels@);
    out
}

impl TextureAtlas {
    /// The invariant of the type.
    #[verifier::type_invariant]
    pub open spec fn wf(&self) -> bool {
        self@.wf()
    }

    /// An atlas of the given extent, if `pixels` holds one value for each
    /// texel and a row of the mirror can be addressed.
    pub fn new(version: u64, width: u32, height: u32, pixels: Vec<u8>) -> (r: Option<TextureAtlas>)
        ensures
            r is Some <==> (TextureAtlasView { version, width, height, pixels: pixels@ }).wf(),
            r matches Some(atlas) ==> atlas@ == (TextureAtlasView {
                version,
                width,
                height,
                pixels: pixels@,
            }),
    {
        if width > u32::MAX / CHANNELS {
            return None;
        }
        assert(width as u64 * height as u64 <= 0xffff_ffff * 0xffff_ffff) by (nonlinear_arith)
            requires
                width <= 0xffff_ffff,
                height <= 0xffff_ffff,
        ;
        let area: u64 = width as u64 * height as u64;
        if pixels.len() as u64 != area {
            return None;
        }
        Some(TextureAtlas { version, width, height, pixels })
    }

    /// The version of the contents.
    pub fn version(&self) -> (v: u64)
        ensures
            v == self@.version,
    {
        self.version
    }

    /// The width in texels.
    pub fn width(&self) -> (w: u32)
        ensures
            w == self@.width,
    {
        self.width
    }

    /// The height in texels.
    pub fn height(&self) -> (h: u32)
        ensures
            h == self@.height,
    {
        self.height
    }

    /// The coverage values, row after row.
    pub fn pixels(&self) -> (p: &[u8])
        ensures
            p@ == self@.pixels,
            p@.len() == self@.width * self@.height,
    {
        proof {
            use_type_invariant(self);
        }
        self.pixels.as_slice()
    }

    /// The write that brings a GPU texture of the same extent to the
    /// contents of the atlas.
    pub fn full_upload(&self) -> (upload: TextureUpload)
        ensures
            upload.is_full_upload_of(self@),
    {
        proof {
            use_type_invariant(self);
        }
        TextureUpload {
            width: self.width,
            height: self.height,
            bytes_per_row: CHANNELS * self.width,
            rows_per_image: self.height,
            pixels: expand_coverage(self.pixels.as_slice()),
        }
    }
}

/// What the GPU side holds of the atlas: the version last written and the
/// extent of the texture object.
#[derive(Clone, Copy, Debug, PartialEq, Eq, Structural)]
pub struct GpuTextureMirror {
    pub last_version: u64,
    pub width: u32,
    pub height: u32,
}

/// What a sync has to do.
#[derive(Clone, Copy, Debug, PartialEq, Eq, Structural)]
pub enum SyncKind {
    /// The mirror holds the atlas already.
    UpToDate,
    /// The contents changed: write them into the texture that exists.
    Upload,
    /// The extent changed too: make a new texture object and a new binding
    /// set for it, then write the contents.
    Replace,
}

/// The outcome of a sync, with the data to write where there is any.
#[derive(Debug)]
pub enum AtlasSync {
    UpToDate,
    Upload(TextureUpload),
    Replace(TextureUpload),
}

impl AtlasSync {
    /// Which of the three things the sync asks for.
    pub open spec fn kind(self) -> SyncKind {
        match self {
            AtlasSync::UpToDate => SyncKind::UpToDate,
            AtlasSync::Upload(_) => SyncKind::Upload,
            AtlasSync::Replace(_) => SyncKind::Replace,
        }
    }

    /// The outcome carries a write of the whole atlas, unless it is up to date.
    pub open spec fn writes(self, atlas: TextureAtlasView) -> bool {
        match self {
            AtlasSync::UpToDate => true,
            AtlasSync::Upload(upload) => upload.is_full_upload_of(atlas),
            AtlasSync::Replace(upload) => upload.is_full_upload_of(atlas),
        }
    }

    /// Which of the three things the sync asks for.
    pub fn get_kind(&self) -> (k: SyncKind)
        ensures
            k == self.kind(),
    {
        match self {
            AtlasSync::UpToDate => SyncKind::UpToDate,
            AtlasSync::Upload(_) => SyncKind::Upload,
            AtlasSync::Replace(_) => SyncKind::Replace,
        }
    }
}

impl GpuTextureMirror {
    /// The mirror of a texture that was just created for the atlas and
    /// written with it.
    pub open spec fn of(atlas: TextureAtlasView) -> GpuTextureMirror {
        GpuTextureMirror { last_version: atlas.version, width: atlas.width, height: atlas.height }
    }

    /// What a sync with `atlas` has to do: nothing while the version is the
    /// one last written, a write when it is not, into a new texture when the
    /// extent is another.
    pub open spec fn sync_kind(self, atlas: TextureAtlasView) -> SyncKind {
        if self.last_version == atlas.version {
            SyncKind::UpToDate
        } else if self.width == atlas.width && self.height == atlas.height {
            SyncKind::Upload
        } else {
            SyncKind::Replace
        }
    }

    /// The mirror after a sync with `atlas`.
    pub open spec fn synced(self, atlas: TextureAtlasView) -> GpuTextureMirror {
        if self.last_version == atlas.version {
            self
        } else {
            GpuTextureMirror::of(atlas)
        }
    }

    /// What writing `atlas` again has to do, whatever its version: a write
    /// into the texture that exists, or into a new one when the extent is
    /// another.
    pub open spec fn rebuild_kind(self, atlas: TextureAtlasView) -> SyncKind {
        if self.width == atlas.width && self.height == atlas.height {
            SyncKind::Upload
        } else {
            SyncKind::Replace
        }
    }

    /// Creates the mirror together with the first write of the atlas.
    pub fn new(atlas: &TextureAtlas) -> (r: (GpuTextureMirror, TextureUpload))
        ensures
            r.0 == GpuTextureMirror::of(atlas@),
            r.1.is_full_upload_of(atlas@),
    {
        let mirror = GpuTextureMirror {
            last_version: atlas.version(),
            width: atlas.width(),
            height: atlas.height(),
        };
        (mirror, atlas.full_upload())
    }

    /// Writes the whole atlas again, without looking at the version, and
    /// records the version written.
    pub fn rebuild(&mut self, atlas: &TextureAtlas) -> (action: AtlasSync)
        ensures
            *final(self) == GpuTextureMirror::of(atlas@),
            action.kind() == old(self).rebuild_kind(atlas@),
            action.writes(atlas@),
    {
        let same_extent = self.width == atlas.width() && self.height == atlas.height();
        self.last_version = atlas.version();
        self.width = atlas.width();
        self.height = atlas.height();
        let upload = atlas.full_upload();
        if same_extent {
            AtlasSync::Upload(upload)
        } else {
            AtlasSync::Replace(upload)
        }
    }

    /// Brings the mirror up to the atlas: compares the version last written
    /// with the version of the atlas, and writes the whole atlas when they
    /// differ. After the call the mirror holds the version of the atlas.
    pub fn sync(&mut self, atlas: &TextureAtlas) -> (action: AtlasSync)
        ensures
            *final(self) == old(self).synced(atlas@),
            final(self).last_version == atlas@.version,
            action.kind() == old(self).sync_kind(atlas@),
            action.writes(atlas@),
    {
        if self.last_version == atlas.version() {
            AtlasSync::UpToDate
        } else {
            self.rebuild(atlas)
        }
    }
}

/// Number of writes that a run of syncs makes, one sync for each atlas state
/// observed, in order.
pub open spec fn uploads(mirror: GpuTextureMirror, observed: Seq<TextureAtlasView>) -> nat
    decreases observed.len(),
{
    if observed.len() == 0 {
        0
    } else {
        let write: nat = if mirror.sync_kind(observed[0]) == SyncKind::UpToDate {
            0
        } else {
            1
        };
        write + uploads(mirror.synced(observed[0]), observed.drop_first())
    }
}

/// Number of places in `versions` that differ from the version before them,
/// the first being held against `last`.
pub open spec fn version_changes(last: u64, versions: Seq<u64>) -> nat
    decreases versions.len(),
{
    if versions.len() == 0 {
        0
    } else {
        let change: nat = if versions[0] == last {
            0
        } else {
            1
        };
        change + version_changes(versions[0], versions.drop_first())
    }
}

/// The versions of the observed atlas states.
pub open spec fn versions_of(observed: Seq<TextureAtlasView>) -> Seq<u64> {
    observed.map_values(|atlas: TextureAtlasView| atlas.version)
}

/// Each version is above the one before it, the first above `last`.
pub open spec fn strictly_rising(last: u64, versions: Seq<u64>) -> bool {
    &&& versions.len() > 0 ==> last < versions[0]
    &&& forall|i: int, j: int| 0 <= i < j < versions.len() ==> versions[i] < versions[j]
}

/// A run of syncs writes once for each change of version that it sees, and
/// not otherwise.
pub proof fn lemma_one_upload_per_version_change(
    mirror: GpuTextureMirror,
    observed: Seq<TextureAtlasView>,
)
    ensures
        uploads(mirror, observed) == version_changes(mirror.last_version, versions_of(observed)),
    decreases observed.len(),
{
    if observed.len() > 0 {
        let rest = observed.drop_first();
        lemma_one_upload_per_version_change(mirror.synced(observed[0]), rest);
        assert(versions_of(observed).drop_first() == versions_of(rest));
    }
}

/// Where the versions seen keep rising, every sync writes: as many writes
/// as syncs.
pub proof fn lemma_rising_versions_upload_each_time(
    mirror: GpuTextureMirror,
    observed: Seq<TextureAtlasView>,
)
    requires
        strictly_rising(mirror.last_version, versions_of(observed)),
    ensures
        uploads(mirror, observed) == observed.len(),
    decreases observed.len(),
{
    if observed.len() > 0 {
        let rest = observed.drop_first();
        let versions = versions_of(observed);
        assert(versions[0] == observed[0].version);
        assert(versions_of(rest) == versions.drop_first());
        assert(strictly_rising(observed[0].version, versions_of(rest))) by {
            if rest.len() > 0 {
                assert(versions[0] < versions[1]);
            }
            assert forall|i: int, j: int| 0 <= i < j < rest.len() implies versions_of(rest)[i]
                < versions_of(rest)[j] by {
                assert(versions[i + 1] < versions[j + 1]);
            }
        }
        lemma_rising_versions_upload_each_time(mirror.synced(observed[0]), rest);
    }
}

/// Where the version seen is the one last written every time, no sync writes.
pub proof fn lemma_unchanged_version_uploads_nothing(
    mirror: GpuTextureMirror,
    observed: Seq<TextureAtlasView>,
)
    requires
        forall|i: int| 0 <= i < observed.len() ==> (#[trigger] observed[i]).version
            == mirror.last_version,
    ensures
        uploads(mirror, observed) == 0,
    decreases observed.len(),
{
    if observed.len() > 0 {
        let rest = observed.drop_first();
        assert forall|i: int| 0 <= i < rest.len() implies (#[trigger] rest[i]).version
            == mirror.last_version by {
            assert(rest[i] == observed[i + 1]);
        }
        lemma_unchanged_version_uploads_nothing(mirror.synced(observed[0]), rest);
    }
}

/// A second sync with the same atlas does nothing: it asks for no write and
/// leaves the mirror as the first sync left it. Two syncs in a row write
/// as often as the first alone.
pub proof fn lemma_sync_is_idempotent(mirror: GpuTextureMirror, atlas: TextureAtlasView)
    ensures
        mirror.synced(atlas).sync_kind(atlas) == SyncKind::UpToDate,
        mirror.synced(atlas).synced(atlas) == mirror.synced(atlas),
        uploads(mirror, seq![atlas, atlas]) == uploads(mirror, seq![atlas]),
        uploads(mirror, seq![atlas, atlas]) <= 1,
{
    let twice = seq![atlas, atlas];
    let once = seq![atlas];
    assert(twice.drop_first() == once);
    assert(once.drop_first() == Seq::<TextureAtlasView>::empty());
    assert(uploads(mirror.synced(atlas), once) == 0) by {
        assert(uploads(mirror.synced(atlas).synced(atlas), once.drop_first()) == 0);
    }
    assert(uploads(mirror.synced(atlas), once.drop_first()) == 0);
}

} // verus!
