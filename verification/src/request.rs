//! What a request to the provider needs: the credential's place and the
//! address of the current-weather resource.

use vstd::prelude::*;

verus! {

/// The environment variable that holds the API key.
pub const API_KEY_VARIABLE: &'static str = "WEATHER_API_KEY";

/// The address that answers for `city` to the holder of `api_key`: the
/// provider's endpoint with the city as the query parameter `q` and the key
/// as `appid`, both exactly as given.
pub open spec fn url_of(city: Seq<char>, api_key: Seq<char>) -> Seq<char> {
    "https://api.openweathermap.org/data/2.5/weather?q="@ + city + "&appid="@ + api_key
}

/// Builds the address to fetch for `city` with `api_key`. Neither is escaped
/// or checked here: the transport encodes what it must.
pub fn request_url(city: &str, api_key: &str) -> (url: String)
    ensures
        url@ == url_of(city@, api_key@),
{
    let mut url = String::from_str("https://api.openweathermap.org/data/2.5/weather?q=");
    url.append(city);
    url.append("&appid=");
    url.append(api_key);
    url
}

} // verus!
