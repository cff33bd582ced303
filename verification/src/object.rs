//! Locations and metadata of objects.
use vstd::prelude::*;

use crate::proto::Object;
use crate::text::i64_to_string;
use crate::time::{to_date_time, DateTime};
use crate::write::optional_text;

verus! {

/// The location of an object in its bucket.
#[derive(Debug, PartialEq, Eq)]
pub struct Path {
    pub raw: String,
}

impl View for Path {
    type V = Seq<char>;

    open spec fn view(&self) -> Seq<char> {
        self.raw@
    }
}

impl Clone for Path {
    fn clone(&self) -> (path: Path)
        ensures
            path == *self,
    {
        Path { raw: self.raw.clone() }
    }
}

impl Path {
    /// The location with the given name.
    pub fn new(raw: &str) -> (path: Path)
        ensures
            path@ == raw@,
    {
        Path { raw: raw.to_string() }
    }

    /// The name of the location.
    pub fn as_str(&self) -> (raw: &str)
        ensures
            raw@ == self@,
    {
        self.raw.as_str()
    }
}

/// What the store says of an object.
#[derive(Debug, PartialEq)]
pub struct ObjectMeta {
    pub location: Path,
    pub last_modified: DateTime,
    pub size: u64,
    pub e_tag: Option<String>,
    pub version: Option<String>,
}

/// The mathematical value of an [`ObjectMeta`].
pub struct ObjectMetaView {
    pub location: Seq<char>,
    pub last_modified: DateTime,
    pub size: u64,
    pub e_tag: Option<Seq<char>>,
    pub version: Option<Seq<char>>,
}

impl View for ObjectMeta {
    type V = ObjectMetaView;

    open spec fn view(&self) -> ObjectMetaView {
        ObjectMetaView {
            location: self.location@,
            last_modified: self.last_modified,
            size: self.size,
            e_tag: optional_text(self.e_tag),
            version: optional_text(self.version),
        }
    }
}

/// A signed size taken as an unsigned one of the same 64 bits.
pub open spec fn unsigned_size(size: i64) -> int {
    if size >= 0 {
        size as int
    } else {
        size + 0x1_0000_0000_0000_0000
    }
}

/// When an object was last changed: when it was last updated, else when it was
/// created, else the epoch.
pub open spec fn last_modified(object: Object) -> DateTime {
    match (object.update_time, object.create_time) {
        (Some(updated), _) => crate::time::date_time_of(updated),
        (None, Some(created)) => crate::time::date_time_of(created),
        (None, None) => crate::time::epoch(),
    }
}

/// What the store says of the object at `location`.
pub open spec fn meta_of(location: Seq<char>, object: Object) -> ObjectMetaView {
    ObjectMetaView {
        location,
        last_modified: last_modified(object),
        size: unsigned_size(object.size) as u64,
        e_tag: if object.etag@.len() == 0 {
            None
        } else {
            Some(object.etag@)
        },
        version: Some(crate::text::decimal(object.generation as int)),
    }
}

/// The 64 bits of a signed size as an unsigned one.
pub fn to_unsigned_size(size: i64) -> (unsigned: u64)
    ensures
        unsigned == unsigned_size(size),
{
    proof {
        assert((size as u64) as int == (if size >= 0 {
            size as int
        } else {
            size + 0x1_0000_0000_0000_0000
        })) by (bit_vector);
    }
    size as u64
}

/// What the store says of the object at `location`.
pub fn object_to_meta(location: &Path, object: &Object) -> (meta: ObjectMeta)
    ensures
        meta@ == meta_of(location@, *object),
{
    let last_modified = match &object.update_time {
        Some(updated) => to_date_time(updated),
        None => match &object.create_time {
            Some(created) => to_date_time(created),
            None => DateTime { seconds: 0, nanos: 0 },
        },
    };
    ObjectMeta {
        location: location.clone(),
        last_modified,
        size: to_unsigned_size(object.size),
        e_tag: if object.etag.as_str().is_empty() {
            None
        } else {
            Some(object.etag.clone())
        },
        version: Some(i64_to_string(object.generation)),
    }
}

/// The location of an object is the text that names it.
pub proof fn law_location_is_its_name(path: Path)
    ensures
        path@ == path.raw@,
{
}

/// What the metadata says is what the object says: the size with its 64 bits,
/// the generation in decimal as the version, the entity tag unless it is empty,
/// and the time of the last update or else of the creation.
pub proof fn law_metadata_follows_object(meta: ObjectMeta, location: Seq<char>, object: Object)
    requires
        meta@ == meta_of(location, object),
    ensures
        meta.location.raw@ == location,
        object.size >= 0 ==> meta.size == object.size,
        object.size < 0 ==> meta.size == object.size + 0x1_0000_0000_0000_0000,
        object.etag@.len() == 0 ==> meta.e_tag is None,
        object.etag@.len() > 0 ==> (meta.e_tag matches Some(e_tag) && e_tag@ == object.etag@),
        meta.version matches Some(version) && version@ == crate::text::decimal(
            object.generation as int,
        ),
        object.update_time matches Some(time) ==> meta.last_modified == crate::time::date_time_of(
            time,
        ),
        object.update_time is None ==> (object.create_time matches Some(time)
            ==> meta.last_modified == crate::time::date_time_of(time)),
        object.update_time is None && object.create_time is None ==> meta.last_modified.seconds == 0
            && meta.last_modified.nanos == 0,
{
}

} // verus!
