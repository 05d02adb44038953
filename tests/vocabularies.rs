use rspotify::{
    AdditionalType, AlbumType, CurrentlyPlayingType, DeviceType, EnumError, ErrorKind, SearchType,
    Type,
};

#[test]
fn test_album_type_convert_from_str() {
    let album_type = AlbumType::from_str("album");
    assert_eq!(album_type.clone().unwrap(), AlbumType::Album);
    assert_eq!(album_type.unwrap().to_string(), "album".to_string());
    let empty_type = AlbumType::from_str("not exist album");
    assert!(empty_type.is_err());
    let appears_on = AlbumType::AppearsOn;
    assert_eq!("appears_on".to_string(), appears_on.to_string());
    let compilation = AlbumType::Compilation;
    assert_eq!("compilation", compilation.as_ref());
}

#[test]
fn test_convert_search_type_from_str() {
    let search_type = SearchType::from_str("artist");
    assert_eq!(search_type.unwrap(), SearchType::Artist);
    let unknown_search_type = SearchType::from_str("unknown_search_type");
    assert_eq!(unknown_search_type.is_err(), true);
}

#[test]
fn test_type_convert_from_str() {
    let _type = Type::from_str("album");
    assert_eq!(_type.unwrap(), Type::Album);
    let artist = Type::Artist;
    assert_eq!(artist.as_ref(), "artist");
    assert_eq!(artist.to_string(), "artist".to_string());

    let empty_type = Type::from_str("not_exist_type");
    assert!(empty_type.is_err());
}

#[test]
fn test_additional_type() {
    let track = AdditionalType::from_str("track");
    assert_eq!(track.unwrap(), AdditionalType::Track);
    let episode = AdditionalType::Episode;
    assert_eq!(episode.to_string(), "episode".to_string());
    assert_eq!(episode.as_ref(), "episode".to_string());
}

#[test]
fn test_current_playing_type() {
    let track = CurrentlyPlayingType::from_str("track");
    assert_eq!(track.unwrap(), CurrentlyPlayingType::Track);
    let episode = CurrentlyPlayingType::Episode;
    assert_eq!(episode.as_ref(), "episode");
    let ad = CurrentlyPlayingType::Advertisement;
    assert_eq!(ad.as_ref(), "ad");
}

#[test]
fn test_search_type() {
    let artist = SearchType::from_str("artist");
    assert_eq!(artist.unwrap(), SearchType::Artist);
    let episode = SearchType::Episode;
    assert_eq!(episode.as_ref(), "episode");
    assert_eq!(episode.to_string(), "episode".to_string());
}

#[test]
fn single_album_type_round_trip() {
    let single = AlbumType::from_str("single").unwrap();
    assert_eq!(single, AlbumType::Single);
    assert_eq!(single.to_string(), "single");
}

#[test]
fn unknown_search_type_carries_the_string() {
    let err = SearchType::from_str("unknown_search_type").unwrap_err();
    assert_eq!(
        err,
        EnumError::new(ErrorKind::NoEnum("unknown_search_type".to_string()))
    );
    match err.kind() {
        ErrorKind::NoEnum(s) => assert_eq!(s, "unknown_search_type"),
    }
}

#[test]
fn every_member_round_trips() {
    for v in [AlbumType::Album, AlbumType::Single, AlbumType::AppearsOn, AlbumType::Compilation] {
        assert_eq!(AlbumType::from_str(&v.to_string()).unwrap(), v);
    }
    for v in [
        Type::Artist,
        Type::Album,
        Type::Track,
        Type::Playlist,
        Type::User,
        Type::Show,
        Type::Episode,
    ] {
        assert_eq!(Type::from_str(v.as_ref()).unwrap(), v);
    }
    for v in [AdditionalType::Track, AdditionalType::Episode] {
        assert_eq!(AdditionalType::from_str(v.as_ref()).unwrap(), v);
    }
    for v in [
        CurrentlyPlayingType::Track,
        CurrentlyPlayingType::Episode,
        CurrentlyPlayingType::Advertisement,
        CurrentlyPlayingType::Unknown,
    ] {
        assert_eq!(CurrentlyPlayingType::from_str(v.as_ref()).unwrap(), v);
    }
    for v in [
        SearchType::Artist,
        SearchType::Album,
        SearchType::Track,
        SearchType::Playlist,
        SearchType::Show,
        SearchType::Episode,
    ] {
        assert_eq!(SearchType::from_str(v.as_ref()).unwrap(), v);
    }
    for v in [
        DeviceType::Computer,
        DeviceType::Tablet,
        DeviceType::Smartphone,
        DeviceType::Speaker,
        DeviceType::TV,
        DeviceType::AVR,
        DeviceType::STB,
        DeviceType::AudioDongle,
        DeviceType::GameConsole,
        DeviceType::CastVideo,
        DeviceType::CastAudio,
        DeviceType::Automobile,
        DeviceType::Unknown,
    ] {
        assert_eq!(DeviceType::from_str(&v.to_string()).unwrap(), v);
    }
}

#[test]
fn spellings_are_exact() {
    assert_eq!(CurrentlyPlayingType::Advertisement.to_string(), "ad");
    assert_eq!(DeviceType::TV.as_ref(), "TV");
    assert_eq!(DeviceType::CastAudio.as_ref(), "CastAudio");
    assert!(CurrentlyPlayingType::from_str("advertisement").is_err());
    assert!(AlbumType::from_str("Album").is_err());
    assert!(AlbumType::from_str("").is_err());
    assert!(DeviceType::from_str("tv").is_err());
    assert!(Type::from_str("album ").is_err());
}

#[test]
fn rejected_string_is_never_a_default() {
    for s in ["", "albums", "user", "ad", "Computer"] {
        match AlbumType::from_str(s) {
            Err(e) => assert_eq!(*e.kind(), ErrorKind::NoEnum(s.to_string())),
            Ok(v) => panic!("{:?} read from {:?}", v, s),
        }
    }
    assert_eq!(SearchType::from_str("user").unwrap_err().kind(), &ErrorKind::NoEnum("user".to_string()));
}

#[test]
fn enum_error_messages() {
    let err = DeviceType::from_str("say \"hi\"").unwrap_err();
    assert_eq!(err.description(), "no proper enum was found");
    assert_eq!(err.to_string(), "can't find proper enum of `\"say \\\"hi\\\"\"`");
    let plain = Type::from_str("x").unwrap_err();
    assert_eq!(plain.to_string(), "can't find proper enum of `\"x\"`");
}
