//! Client-side core of a music-streaming web API library: the closed
//! vocabularies of the API with their canonical spellings, and the
//! request pipeline (header resolution, token cache, status mapping).

mod client;
mod http;
mod types;

pub use types::{
    AdditionalType, AlbumType, CurrentlyPlayingType, DeviceType, EnumError, ErrorKind, SearchType,
    Type,
};
pub use http::{check_reply, decode_body, read_body, ClientError, Headers, Response};
pub use client::{bearer_auth, HeaderStep, Spotify, Token};
