//! Saved WiFi connection profiles, keyed by SSID.
use vstd::prelude::*;
use crate::text::{decode_utf8_lossy, utf8_lossy};

verus! {

/// The connection path recorded last for `ssid` in a list of (SSID, path) records.
pub open spec fn last_record(records: Seq<(Seq<char>, Seq<char>)>, ssid: Seq<char>) -> Option<Seq<char>>
    decreases records.len(),
{
    if records.len() == 0 {
        None
    } else if records.last().0 == ssid {
        Some(records.last().1)
    } else {
        last_record(records.drop_last(), ssid)
    }
}

/// The saved WiFi profiles: for each SSID the path of the connection profile
/// recorded for it last, as a map from SSID to path.
pub struct SavedConnections {
    records: Vec<(String, String)>,
}

impl SavedConnections {
    /// The records as text, oldest first.
    pub closed spec fn records_text(&self) -> Seq<(Seq<char>, Seq<char>)> {
        self.records@.map_values(|r: (String, String)| (r.0@, r.1@))
    }
}

impl View for SavedConnections {
    type V = Map<Seq<char>, Seq<char>>;

    closed spec fn view(&self) -> Map<Seq<char>, Seq<char>> {
        Map::new(
            |k: Seq<char>| last_record(self.records_text(), k) is Some,
            |k: Seq<char>| last_record(self.records_text(), k)->0,
        )
    }
}

/// The SSID under which a connection profile is recorded: none when the
/// profile has a connection type other than "802-11-wireless", has no SSID,
/// or its SSID is empty.
pub open spec fn profile_ssid(conn_type: Option<Seq<char>>, ssid_bytes: Option<Seq<u8>>) -> Option<
    Seq<char>,
> {
    if conn_type matches Some(t) && t != "802-11-wireless"@ {
        None
    } else {
        match ssid_bytes {
            None => None,
            Some(b) => if utf8_lossy(b).len() == 0 {
                None
            } else {
                Some(utf8_lossy(b))
            },
        }
    }
}

impl SavedConnections {
    /// No saved profiles.
    pub fn new() -> (r: SavedConnections)
        ensures
            r@ == Map::<Seq<char>, Seq<char>>::empty(),
    {
        let r = SavedConnections { records: Vec::new() };
        assert(r@ =~= Map::<Seq<char>, Seq<char>>::empty());
        r
    }

    /// Records `path` as the profile of `ssid`, replacing an earlier one.
    pub fn insert(&mut self, ssid: String, path: String)
        ensures
            final(self)@ == old(self)@.insert(ssid@, path@),
    {
        let ghost old_text = self.records_text();
        self.records.push((ssid, path));
        proof {
            let t = self.records_text();
            assert(t.drop_last() =~= old_text);
            assert(t.last() == (ssid@, path@));
            assert forall|k: Seq<char>| last_record(t, k) == (if k == ssid@ {
                Some(path@)
            } else {
                last_record(old_text, k)
            }) by {}
            assert(self@ =~= old(self)@.insert(ssid@, path@));
        }
    }

    /// The profile path saved for `ssid`.
    pub fn get(&self, ssid: &String) -> (r: Option<String>)
        ensures
            r is Some <==> self@.contains_key(ssid@),
            r matches Some(p) ==> p@ == self@[ssid@],
    {
        let ghost text = self.records_text();
        let mut found: Option<String> = None;
        let mut i: usize = 0;
        while i < self.records.len()
            invariant
                i <= self.records@.len(),
                text == self.records_text(),
                text.len() == self.records@.len(),
                found is Some <==> last_record(text.take(i as int), ssid@) is Some,
                found matches Some(p) ==> Some(p@) == last_record(text.take(i as int), ssid@),
            decreases self.records@.len() - i,
        {
            assert(text.take(i + 1).drop_last() =~= text.take(i as int));
            assert(text[i as int] == (self.records@[i as int].0@, self.records@[i as int].1@));
            if self.records[i].0 == *ssid {
                found = Some(self.records[i].1.clone());
            }
            i = i + 1;
        }
        assert(text.take(i as int) =~= text);
        found
    }

    /// Records a connection profile read from NetworkManager's settings: its
    /// connection type, if it has one, the bytes of its SSID, if it has one,
    /// and its object path. Profiles of other types, and those without an
    /// SSID or with an empty one, leave the map unchanged.
    pub fn record_profile(
        &mut self,
        conn_type: Option<String>,
        ssid_bytes: Option<Vec<u8>>,
        path: String,
    )
        ensures
            final(self)@ == (match profile_ssid(
                crate::text::opt_text(conn_type),
                match ssid_bytes {
                    Some(b) => Some(b@),
                    None => None,
                },
            ) {
                Some(s) => old(self)@.insert(s, path@),
                None => old(self)@,
            }),
    {
        proof {
            reveal_strlit("802-11-wireless");
        }
        let wireless = String::from_str("802-11-wireless");
        if let Some(t) = &conn_type {
            if *t != wireless {
                return;
            }
        }
        match ssid_bytes {
            None => {},
            Some(b) => {
                let ssid = decode_utf8_lossy(b.as_slice());
                if !ssid.as_str().is_empty() {
                    self.insert(ssid, path);
                }
            },
        }
    }
}

} // verus!
