//! The build/depot/chunk data model: build listings, build metadata, depot
//! manifests and their files and chunks, and the catalog entry for a
//! product. Depot manifests are read-only once fetched; the only mutations
//! are the flag propagation a manifest fetch performs and the bookkeeping
//! setters.

use vstd::prelude::*;

verus! {

/// A product's human-readable catalog entry.
pub struct GogDbGameDetails {
    pub title: Option<String>,
    pub image_boxart: Option<String>,
    pub product_type: Option<String>,
    pub game_id: Option<u64>,
}

impl GogDbGameDetails {
    /// Records which product this entry was fetched for.
    pub fn set_id(&mut self, id: u64)
        ensures
            final(self).game_id == Some(id),
            final(self).title == old(self).title,
            final(self).image_boxart == old(self).image_boxart,
            final(self).product_type == old(self).product_type,
    {
        self.game_id = Some(id);
    }
}

/// A content-addressed slice of a file's data. `size` is the uncompressed
/// length; `order`, when present, fixes the chunk's position within its
/// file's byte stream.
pub struct Chunk {
    pub md5: String,
    pub size: u64,
    pub compressed_md5: String,
    pub compressed_size: u64,
    pub order: Option<i32>,
}

impl Chunk {
    /// Fixes this chunk's position within its owning file.
    pub fn set_order(&mut self, order: i32)
        ensures
            final(self).order == Some(order),
            final(self).md5 == old(self).md5,
            final(self).size == old(self).size,
            final(self).compressed_md5 == old(self).compressed_md5,
            final(self).compressed_size == old(self).compressed_size,
    {
        self.order = Some(order);
    }
}

/// The sum of the uncompressed sizes of a run of chunks.
pub open spec fn spec_chunks_size(chunks: Seq<Chunk>) -> int
    decreases chunks.len(),
{
    if chunks.len() == 0 {
        0
    } else {
        chunks[0].size + spec_chunks_size(chunks.skip(1))
    }
}

/// Chunk sizes are unsigned, so the sum of any run of them is non-negative.
pub proof fn lemma_chunks_size_nonneg(chunks: Seq<Chunk>)
    ensures
        spec_chunks_size(chunks) >= 0,
    decreases chunks.len(),
{
    if chunks.len() > 0 {
        lemma_chunks_size_nonneg(chunks.skip(1));
    }
}

/// One file of a depot manifest. A file with no chunk list is a
/// directory or link marker and contributes no bytes.
pub struct DepotFile {
    pub path: String,
    pub file_type: String,
    pub chunks: Option<Vec<Chunk>>,
    pub sha256: Option<String>,
    pub is_gog_depot: Option<bool>,
}

impl DepotFile {
    /// The file's total size: the sum of its chunks' uncompressed sizes,
    /// zero when it has no chunk list.
    pub open spec fn spec_size(&self) -> int {
        match self.chunks {
            Some(ref chunks) => spec_chunks_size(chunks@),
            None => 0,
        }
    }

    /// Marks whether the file belongs to a platform-hosted depot.
    pub fn set_is_gog_depot(&mut self, is_gog_depot: bool)
        ensures
            final(self).is_gog_depot == Some(is_gog_depot),
            final(self).path == old(self).path,
            final(self).file_type == old(self).file_type,
            final(self).chunks == old(self).chunks,
            final(self).sha256 == old(self).sha256,
    {
        self.is_gog_depot = Some(is_gog_depot);
    }

    /// The file's total size in bytes.
    pub fn get_size(&self) -> (r: u64)
        requires
            self.spec_size() <= u64::MAX as int,
        ensures
            r as int == self.spec_size(),
    {
        match &self.chunks {
            None => 0,
            Some(chunks) => {
                let n = chunks.len();
                let mut total: u64 = 0;
                let mut i: usize = 0;
                proof {
                    assert(chunks@.skip(0) =~= chunks@);
                }
                while i < n
                    invariant
                        n == chunks@.len(),
                        i <= n,
                        total + spec_chunks_size(chunks@.skip(i as int)) == spec_chunks_size(
                            chunks@,
                        ),
                        spec_chunks_size(chunks@) <= u64::MAX as int,
                    decreases n - i,
                {
                    let ghost rem = chunks@.skip(i as int);
                    proof {
                        assert(rem[0] == chunks@[i as int]);
                        assert(rem.skip(1) =~= chunks@.skip(i as int + 1));
                        lemma_chunks_size_nonneg(rem.skip(1));
                    }
                    total = total + chunks[i].size;
                    i = i + 1;
                }
                proof {
                    assert(chunks@.skip(n as int) =~= Seq::<Chunk>::empty());
                }
                total
            },
        }
    }
}

/// The file listing of one depot manifest.
pub struct Item {
    pub items: Vec<DepotFile>,
}

/// A depot manifest: its file listing, format version, and whether the
/// depot is platform-hosted (which selects the chunk-URL strategy).
pub struct DepotInfo {
    pub depot: Item,
    pub version: u64,
    pub is_gog_depot: Option<bool>,
}

impl DepotInfo {
    /// Marks the whole manifest: the flag is recorded on the manifest and
    /// propagated into every file, since it decides how every chunk inside
    /// the depot is addressed.
    pub fn set_is_gog_depot(&mut self, is_gog_depot: bool)
        ensures
            final(self).is_gog_depot == Some(is_gog_depot),
            final(self).version == old(self).version,
            final(self).depot.items@.len() == old(self).depot.items@.len(),
            forall|i: int|
                0 <= i < old(self).depot.items@.len() ==> {
                    &&& (#[trigger] final(self).depot.items@[i]).is_gog_depot == Some(
                        is_gog_depot,
                    )
                    &&& final(self).depot.items@[i].path == old(self).depot.items@[i].path
                    &&& final(self).depot.items@[i].file_type == old(
                        self,
                    ).depot.items@[i].file_type
                    &&& final(self).depot.items@[i].chunks == old(self).depot.items@[i].chunks
                    &&& final(self).depot.items@[i].sha256 == old(self).depot.items@[i].sha256
                },
    {
        self.is_gog_depot = Some(is_gog_depot);
        let n = self.depot.items.len();
        let mut i: usize = 0;
        while i < n
            invariant
                n == self.depot.items@.len(),
                i <= n,
                self.is_gog_depot == Some(is_gog_depot),
                self.version == old(self).version,
                self.depot.items@.len() == old(self).depot.items@.len(),
                forall|k: int|
                    0 <= k < i ==> {
                        &&& (#[trigger] self.depot.items@[k]).is_gog_depot == Some(is_gog_depot)
                        &&& self.depot.items@[k].path == old(self).depot.items@[k].path
                        &&& self.depot.items@[k].file_type == old(self).depot.items@[k].file_type
                        &&& self.depot.items@[k].chunks == old(self).depot.items@[k].chunks
                        &&& self.depot.items@[k].sha256 == old(self).depot.items@[k].sha256
                    },
                forall|k: int| i <= k < n ==> self.depot.items@[k] == old(self).depot.items@[k],
            decreases n - i,
        {
            self.depot.items[i].set_is_gog_depot(is_gog_depot);
            i = i + 1;
        }
    }
}

/// A reference to one depot inside a build's metadata: the manifest hash
/// that addresses it, its total size, and whether it is platform-hosted.
pub struct Depots {
    pub manifest: String,
    pub size: u64,
    pub is_gog_depot: Option<bool>,
}

/// A build's metadata: its format version, owning product, redistributable
/// dependencies, and depot references.
pub struct BuildMetadata {
    pub version: u64,
    pub base_product_id: String,
    pub dependencies: Vec<String>,
    pub depots: Vec<Depots>,
}

/// A page of a product's build listing.
pub struct GameBuildsData {
    pub total_count: u64,
    pub count: u64,
    pub items: Vec<GameBuild>,
}

/// One published build of a product; `link` addresses its metadata.
pub struct GameBuild {
    pub build_id: String,
    pub version_name: String,
    pub generation: u64,
    pub link: String,
    pub date_published: String,
}

/// A publication timestamp broken into plain calendar fields, with the
/// UTC offset in seconds.
#[derive(Clone, Copy, PartialEq, Eq, Structural, Debug)]
pub struct BuildDate {
    pub year: i32,
    pub month: u8,
    pub day: u8,
    pub hour: u8,
    pub minute: u8,
    pub second: u8,
    pub offset_seconds: i32,
}

/// The calendar fields an RFC 3339 timestamp denotes — year, month, day,
/// hour, minute, second, UTC offset in seconds — or nothing when the text
/// is not such a timestamp. The value depends on the text alone.
pub uninterp spec fn rfc3339_date_of(s: Seq<char>) -> Option<(int, int, int, int, int, int, int)>;

/// Relies on chrono's RFC 3339 parser (`FromStr` for
/// `DateTime<FixedOffset>`) and its field accessors, whose documented
/// ranges are months 1 to 12, days 1 to 31, hours below 24, minutes and
/// seconds below 60, and offsets strictly between minus and plus one day.
#[verifier::external_body]
fn parse_rfc3339(s: &str) -> (r: Option<BuildDate>)
    ensures
        r is Some <==> rfc3339_date_of(s@) is Some,
        r matches Some(d) ==> rfc3339_date_of(s@) == Some(
            (
                d.year as int,
                d.month as int,
                d.day as int,
                d.hour as int,
                d.minute as int,
                d.second as int,
                d.offset_seconds as int,
            ),
        ),
        r matches Some(d) ==> 1 <= d.month <= 12 && 1 <= d.day <= 31 && d.hour < 24 && d.minute
            < 60 && d.second < 60 && -86400 < d.offset_seconds < 86400,
{
    match s.parse::<chrono::DateTime<chrono::FixedOffset>>() {
        Ok(dt) => Some(BuildDate {
            year: chrono::Datelike::year(&dt),
            month: chrono::Datelike::month(&dt) as u8,
            day: chrono::Datelike::day(&dt) as u8,
            hour: chrono::Timelike::hour(&dt) as u8,
            minute: chrono::Timelike::minute(&dt) as u8,
            second: chrono::Timelike::second(&dt) as u8,
            offset_seconds: dt.offset().local_minus_utc(),
        }),
        Err(_) => None,
    }
}

impl GameBuild {
    /// The build's publication timestamp, when `date_published` is a
    /// well-formed RFC 3339 timestamp.
    pub fn get_date(&self) -> (r: Option<BuildDate>)
        ensures
            r is Some <==> rfc3339_date_of(self.date_published@) is Some,
            r matches Some(d) ==> rfc3339_date_of(self.date_published@) == Some(
                (
                    d.year as int,
                    d.month as int,
                    d.day as int,
                    d.hour as int,
                    d.minute as int,
                    d.second as int,
                    d.offset_seconds as int,
                ),
            ),
    {
        parse_rfc3339(self.date_published.as_str())
    }
}

} // verus!
