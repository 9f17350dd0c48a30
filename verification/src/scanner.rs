use vstd::prelude::*;

verus! {

/// What a scan reports of one peripheral: its identifier and its name.
#[derive(Debug)]
pub struct DeviceInfo {
    pub id: String,
    pub name: String,
}

/// Name reported for a peripheral that advertises no local name.
pub open spec fn unknown_name() -> Seq<char> {
    "unknown"@
}

/// The name a scan reports for a peripheral with the given local name.
pub open spec fn reported_name(local_name: Option<Seq<char>>) -> Seq<char> {
    match local_name {
        Some(n) => n,
        None => unknown_name(),
    }
}

/// The view of an optional string.
pub open spec fn opt_view(s: Option<String>) -> Option<Seq<char>> {
    match s {
        Some(t) => Some(t@),
        None => None,
    }
}

/// Describes a scanned peripheral; one without a local name is called "unknown".
pub fn device_info(id: String, local_name: Option<String>) -> (d: DeviceInfo)
    ensures
        d.id@ == id@,
        d.name@ == reported_name(opt_view(local_name)),
{
    let name = match local_name {
        Some(n) => n,
        None => "unknown".to_owned(),
    };
    DeviceInfo { id, name }
}

/// Why connecting to a peripheral failed.
#[derive(Debug)]
pub enum ScanError {
    /// No scanned peripheral has this identifier.
    NotFound(String),
}

/// The text of a "not found" error for identifier `id`.
pub open spec fn not_found_message(id: Seq<char>) -> Seq<char> {
    "Peripheral with address "@ + id + " not found"@
}

impl ScanError {
    /// The error's message.
    pub fn message(&self) -> (m: String)
        ensures
            m@ == match self {
                ScanError::NotFound(id) => not_found_message(id@),
            },
    {
        match self {
            ScanError::NotFound(id) => {
                let mut m = "Peripheral with address ".to_owned();
                m.append(id.as_str());
                m.append(" not found");
                m
            },
        }
    }
}

/// The position of the first peripheral whose identifier is `id`, or the
/// "not found" error when there is none.
pub fn find_peripheral(ids: &Vec<String>, id: &str) -> (r: Result<usize, ScanError>)
    ensures
        match r {
            Ok(i) => {
                &&& i < ids@.len()
                &&& ids@[i as int]@ == id@
                &&& forall|j: int| 0 <= j < i ==> #[trigger] ids@[j]@ != id@
            },
            Err(ScanError::NotFound(a)) => {
                &&& a@ == id@
                &&& forall|j: int| 0 <= j < ids@.len() ==> #[trigger] ids@[j]@ != id@
            },
        },
{
    let wanted = id.to_owned();
    let mut i: usize = 0;
    while i < ids.len()
        invariant
            i <= ids@.len(),
            wanted@ == id@,
            forall|j: int| 0 <= j < i ==> #[trigger] ids@[j]@ != id@,
        decreases ids@.len() - i,
    {
        if ids[i] == wanted {
            return Ok(i);
        }
        i = i + 1;
    }
    Err(ScanError::NotFound(wanted))
}

/// Whether the property flags `props` include every flag of `required`.
pub open spec fn has_flags(props: u8, required: u8) -> bool {
    props & required == required
}

/// Flag containment: `props` has the flags of `required` exactly when adding
/// them changes nothing; so a characteristic whose flags are exactly the
/// required ones, or any superset of them, qualifies.
pub proof fn lemma_has_flags_is_containment(props: u8, required: u8)
    ensures
        has_flags(props, required) <==> (props | required) == props,
        has_flags(required, required),
        has_flags(props | required, required),
        has_flags(props, 0),
{
    assert(((props & required) == required) <==> ((props | required) == props)) by (bit_vector);
    assert((required & required) == required) by (bit_vector);
    assert(((props | required) & required) == required) by (bit_vector);
    assert((props & 0) == 0) by (bit_vector);
}

/// The position of the first characteristic whose property flags include
/// all of `required`, if any.
pub fn find_write_characteristic(props: &Vec<u8>, required: u8) -> (r: Option<usize>)
    ensures
        match r {
            Some(i) => {
                &&& i < props@.len()
                &&& has_flags(props@[i as int], required)
                &&& forall|j: int| 0 <= j < i ==> !has_flags(#[trigger] props@[j], required)
            },
            None => forall|j: int| 0 <= j < props@.len() ==> !has_flags(#[trigger] props@[j], required),
        },
{
    let mut i: usize = 0;
    while i < props.len()
        invariant
            i <= props@.len(),
            forall|j: int| 0 <= j < i ==> !has_flags(#[trigger] props@[j], required),
        decreases props@.len() - i,
    {
        if props[i] & required == required {
            return Some(i);
        }
        i = i + 1;
    }
    None
}

} // verus!
