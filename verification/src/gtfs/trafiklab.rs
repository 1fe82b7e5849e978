//! The realtime feed's client, without its transport: where to ask, and what
//! to make of what came back.

use vstd::prelude::*;
use vstd::string::StringExecFns;
use vstd::utf8::{decode_utf8, valid_utf8};

verus! {

/// The address of the vehicle positions, up to the key.
pub open spec fn vehicle_positions_url_text() -> Seq<char> {
    "https://opendata.samtrafiken.se/gtfs-rt/ul/VehiclePositions.pb?key="@
}

/// The address of the static data, up to the key.
pub open spec fn static_data_url_text() -> Seq<char> {
    "https://opendata.samtrafiken.se/gtfs/ul/ul.zip?key="@
}

/// The reason given for a body that is text but reports no error.
pub open spec fn not_protocol_buffer_text() -> Seq<char> {
    "Data not in Protocol Buffer format."@
}

/// Calls `std::str::from_utf8`, which succeeds exactly on valid UTF-8, and
/// copies the text it gives.
#[verifier::external_body]
fn text_of(bytes: &Vec<u8>) -> (text: Option<String>)
    ensures
        text is Some <==> valid_utf8(bytes@),
        text matches Some(t) ==> t@ == decode_utf8(bytes@),
{
    match std::str::from_utf8(bytes) {
        Ok(t) => Some(t.to_owned()),
        Err(_) => None,
    }
}

/// What is needed to talk to the feed, and the last body it sent.
pub struct TrafiklabApi {
    realtime_key: String,
    static_key: String,
    raw_data: Vec<u8>,
}

impl TrafiklabApi {
    /// The key for the realtime feed.
    pub closed spec fn realtime_key(&self) -> Seq<char> {
        self.realtime_key@
    }

    /// The key for the static data.
    pub closed spec fn static_key(&self) -> Seq<char> {
        self.static_key@
    }

    /// The body that is kept: empty where none was fetched or the last fetch
    /// failed.
    pub closed spec fn raw_data(&self) -> Seq<u8> {
        self.raw_data@
    }

    /// A client with the given keys, that has fetched nothing yet.
    pub fn new(realtime_key: &str, static_key: &str) -> (r: Self)
        ensures
            r.realtime_key() == realtime_key@,
            r.static_key() == static_key@,
            r.raw_data() == Seq::<u8>::empty(),
    {
        TrafiklabApi {
            realtime_key: realtime_key.to_owned(),
            static_key: static_key.to_owned(),
            raw_data: Vec::new(),
        }
    }

    /// The address at which the vehicle positions are fetched.
    pub fn vehicle_positions_url(&self) -> (url: String)
        ensures
            url@ == vehicle_positions_url_text() + self.realtime_key(),
    {
        "https://opendata.samtrafiken.se/gtfs-rt/ul/VehiclePositions.pb?key=".to_owned().concat(
            self.realtime_key.as_str(),
        )
    }

    /// The address at which the static data is fetched.
    pub fn static_data_url(&self) -> (url: String)
        ensures
            url@ == static_data_url_text() + self.static_key(),
    {
        "https://opendata.samtrafiken.se/gtfs/ul/ul.zip?key=".to_owned().concat(
            self.static_key.as_str(),
        )
    }

    /// The text of a body, where it is text. The feed sends its data in a
    /// binary format, so a body that is text holds no data.
    pub fn body_text(body: &Vec<u8>) -> (text: Option<String>)
        ensures
            text is Some <==> valid_utf8(body@),
            text matches Some(t) ==> t@ == decode_utf8(body@),
    {
        text_of(body)
    }

    /// Takes the body that a fetch brought. A body that is not text is kept
    /// as the feed's data. A body that is text is an error: nothing is kept,
    /// and the reason is the one that the body `reported`, or that the data
    /// is in the wrong format where it reported none.
    pub fn fetch_vehicle_positions(&mut self, body: Vec<u8>, reported: Option<String>) -> (r: Result<
        (),
        String,
    >)
        ensures
            final(self).realtime_key() == old(self).realtime_key(),
            final(self).static_key() == old(self).static_key(),
            r is Ok <==> !valid_utf8(body@),
            r is Ok ==> final(self).raw_data() == body@,
            r matches Err(reason) ==> final(self).raw_data() == Seq::<u8>::empty() && reason@
                == match reported {
                Some(text) => text@,
                None => not_protocol_buffer_text(),
            },
    {
        match text_of(&body) {
            Some(_) => {
                self.raw_data = Vec::new();
                match reported {
                    Some(reason) => Err(reason),
                    None => Err("Data not in Protocol Buffer format.".to_owned()),
                }
            },
            None => {
                self.raw_data = body;
                Ok(())
            },
        }
    }

    /// The body that the last fetch brought, for decoding; none where nothing
    /// was fetched yet or the last fetch failed.
    pub fn get_vehicle_positions(&self) -> (r: Option<Vec<u8>>)
        ensures
            r is Some <==> self.raw_data().len() > 0,
            r matches Some(data) ==> data@ == self.raw_data(),
    {
        if self.raw_data.len() == 0 {
            None
        } else {
            Some(self.raw_data.clone())
        }
    }
}

} // verus!
