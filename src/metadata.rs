use vstd::prelude::*;

verus! {

/// The map described by an association list: a later entry shadows an
/// earlier one under the same key.
pub open spec fn map_of(entries: Seq<(String, String)>) -> Map<Seq<char>, Seq<char>>
    decreases entries.len(),
{
    if entries.len() == 0 {
        Map::empty()
    } else {
        map_of(entries.drop_last()).insert(entries.last().0@, entries.last().1@)
    }
}

/// Free-form string map attached to one command execution (time, request
/// origin, caller agent) and copied onto every event that it produces.
#[derive(Debug)]
pub struct Metadata {
    entries: Vec<(String, String)>,
}

impl View for Metadata {
    type V = Map<Seq<char>, Seq<char>>;

    closed spec fn view(&self) -> Map<Seq<char>, Seq<char>> {
        map_of(self.entries@)
    }
}

impl Metadata {
    pub fn new() -> (r: Metadata)
        ensures
            r@ == Map::<Seq<char>, Seq<char>>::empty(),
    {
        Metadata { entries: Vec::new() }
    }

    /// Sets `key` to `value`, replacing what it held.
    pub fn insert(&mut self, key: String, value: String)
        ensures
            final(self)@ == old(self)@.insert(key@, value@),
    {
        self.entries.push((key, value));
        proof {
            assert(self.entries@.drop_last() =~= old(self).entries@);
        }
    }

    /// The value held under `key`, if any.
    pub fn get(&self, key: &String) -> (r: Option<&String>)
        ensures
            r is Some <==> self@.contains_key(key@),
            r is Some ==> r->Some_0@ == self@[key@],
    {
        let mut i: usize = self.entries.len();
        proof {
            assert(self.entries@.take(i as int) =~= self.entries@);
        }
        while i > 0
            invariant
                i <= self.entries@.len(),
                forall|j: int|
                    i <= j < self.entries@.len() ==> #[trigger] self.entries@[j].0@ != key@,
                map_of(self.entries@.take(i as int)).contains_key(key@) == self@.contains_key(
                    key@,
                ),
                self@.contains_key(key@) ==> map_of(self.entries@.take(i as int))[key@]
                    == self@[key@],
            decreases i,
        {
            proof {
                assert(self.entries@.take(i as int).drop_last() =~= self.entries@.take(i - 1));
            }
            if self.entries[i - 1].0 == *key {
                return Some(&self.entries[i - 1].1);
            }
            i = i - 1;
        }
        None
    }

    /// The entries in the order they were set; where a key repeats, the later
    /// entry is the one in force.
    pub fn entries(&self) -> (r: &Vec<(String, String)>)
        ensures
            map_of(r@) == self@,
    {
        &self.entries
    }

    /// A copy holding the same map.
    pub fn duplicate(&self) -> (r: Metadata)
        ensures
            r@ == self@,
    {
        let mut entries: Vec<(String, String)> = Vec::new();
        let mut i: usize = 0;
        while i < self.entries.len()
            invariant
                i <= self.entries@.len(),
                entries@ == self.entries@.take(i as int),
            decreases self.entries@.len() - i,
        {
            let e = &self.entries[i];
            entries.push((e.0.clone(), e.1.clone()));
            proof {
                assert(entries@ =~= self.entries@.take(i + 1));
            }
            i = i + 1;
        }
        proof {
            assert(self.entries@.take(i as int) =~= self.entries@);
        }
        Metadata { entries }
    }
}

/// The metadata that an inbound request contributes: when it arrived, the
/// URI it named and, where it names one, the caller's user agent.
pub open spec fn request_metadata(
    time: Seq<char>,
    uri: Seq<char>,
    user_agent: Option<Seq<char>>,
) -> Map<Seq<char>, Seq<char>> {
    let base = Map::<Seq<char>, Seq<char>>::empty().insert("time"@, time).insert("uri"@, uri);
    match user_agent {
        Some(agent) => base.insert("User-Agent"@, agent),
        None => base,
    }
}

/// Metadata built from an inbound request, attached to the command it carries.
#[derive(Debug)]
pub struct MetadataExtension(pub Metadata);

impl MetadataExtension {
    /// Builds the request's metadata from the time it arrived (RFC 3339), its
    /// URI and its `User-Agent` header, where the request has a readable one.
    pub fn from_request(time: String, uri: String, user_agent: Option<String>) -> (r:
        MetadataExtension)
        ensures
            r.0@ == request_metadata(
                time@,
                uri@,
                match user_agent {
                    Some(a) => Some(a@),
                    None => None,
                },
            ),
    {
        let mut metadata = Metadata::new();
        metadata.insert("time".to_string(), time);
        metadata.insert("uri".to_string(), uri);
        if let Some(agent) = user_agent {
            metadata.insert("User-Agent".to_string(), agent);
        }
        MetadataExtension(metadata)
    }
}

} // verus!
