use vstd::prelude::*;

verus! {

/// The quoted and escaped form of a string, as its `Debug` impl writes it.
pub uninterp spec fn debug_form(s: Seq<char>) -> Seq<char>;

/// Relies on `<str as Debug>::fmt`: the string in double quotes, with quotes,
/// backslashes and control characters escaped; the result depends on the
/// characters alone.
#[verifier::external_body]
fn debug_str(s: &str) -> (r: String)
    ensures
        r@ == debug_form(s@),
{
    format!("{:?}", s)
}

/// The kind of an error that can occur.
#[derive(Clone, Debug, PartialEq, Eq)]
pub enum ErrorKind {
    /// No vocabulary member has the given spelling.
    NoEnum(String),
}

/// Error returned when a string names no member of a vocabulary.
#[derive(Clone, Debug, PartialEq, Eq)]
pub struct EnumError {
    kind: ErrorKind,
}

impl EnumError {
    /// The spelling that was rejected.
    pub closed spec fn rejected(&self) -> Seq<char> {
        match self.kind {
            ErrorKind::NoEnum(s) => s@,
        }
    }

    /// An error of the given kind.
    pub fn new(kind: ErrorKind) -> (r: EnumError)
        ensures
            match kind {
                ErrorKind::NoEnum(t) => r.rejected() == t@,
            },
    {
        EnumError { kind }
    }

    /// Return the kind of this error.
    pub fn kind(&self) -> (r: &ErrorKind)
        ensures
            match *r {
                ErrorKind::NoEnum(t) => t@ == self.rejected(),
            },
    {
        &self.kind
    }

    /// A short description of the kind of error.
    pub fn description(&self) -> (r: &'static str)
        ensures
            r@ == "no proper enum was found"@,
    {
        match &self.kind {
            ErrorKind::NoEnum(_) => "no proper enum was found",
        }
    }

    /// The message of the error: the rejected string in its quoted form.
    pub fn to_string(&self) -> (r: String)
        ensures
            r@ == "can't find proper enum of `"@ + debug_form(self.rejected()) + "`"@,
    {
        match &self.kind {
            ErrorKind::NoEnum(s) => {
                let mut msg = "can't find proper enum of `".to_owned();
                let quoted = debug_str(s.as_str());
                msg.append(quoted.as_str());
                msg.append("`");
                msg
            },
        }
    }

    /// Builds the error for a string that names no member.
    pub fn no_enum(s: &str) -> (r: EnumError)
        ensures
            r.rejected() == s@,
    {
        EnumError::new(ErrorKind::NoEnum(s.to_owned()))
    }
}

/// Album type - 'album', 'single', 'appears_on', 'compilation'
#[derive(Clone, Copy, Debug, PartialEq, Eq, Structural)]
pub enum AlbumType {
    Album,
    Single,
    AppearsOn,
    Compilation,
}

impl AlbumType {
    /// The canonical spelling of the member.
    pub open spec fn name(self) -> Seq<char> {
        match self {
            AlbumType::Album => "album"@,
            AlbumType::Single => "single"@,
            AlbumType::AppearsOn => "appears_on"@,
            AlbumType::Compilation => "compilation"@,
        }
    }

    /// The member spelled `s`, if any.
    pub open spec fn from_name(s: Seq<char>) -> Option<AlbumType> {
        if s == "album"@ {
            Some(AlbumType::Album)
        } else if s == "single"@ {
            Some(AlbumType::Single)
        } else if s == "appears_on"@ {
            Some(AlbumType::AppearsOn)
        } else if s == "compilation"@ {
            Some(AlbumType::Compilation)
        } else {
            None
        }
    }

    /// The canonical spelling of the member.
    pub fn as_ref(&self) -> (r: &'static str)
        ensures
            r@ == self.name(),
    {
        match self {
            AlbumType::Album => "album",
            AlbumType::Single => "single",
            AlbumType::AppearsOn => "appears_on",
            AlbumType::Compilation => "compilation",
        }
    }

    /// The canonical spelling of the member, as an owned string.
    pub fn to_string(&self) -> (r: String)
        ensures
            r@ == self.name(),
    {
        self.as_ref().to_owned()
    }

    /// Reads a member from its canonical spelling; any other string is rejected.
    pub fn from_str(s: &str) -> (r: Result<AlbumType, EnumError>)
        ensures
            match r {
                Ok(v) => AlbumType::from_name(s@) == Some(v),
                Err(e) => AlbumType::from_name(s@) is None && e.rejected() == s@,
            },
    {
        let t = s.to_owned();
        if t == "album".to_owned() {
            Ok(AlbumType::Album)
        } else if t == "single".to_owned() {
            Ok(AlbumType::Single)
        } else if t == "appears_on".to_owned() {
            Ok(AlbumType::AppearsOn)
        } else if t == "compilation".to_owned() {
            Ok(AlbumType::Compilation)
        } else {
            Err(EnumError::no_enum(s))
        }
    }

    /// Facts about the literal spellings that tell them apart.
    proof fn lemma_spellings()
        ensures
            "album"@.len() == 5,
            "album"@[0] == 'a',
            "album"@[4] == 'm',
            "single"@.len() == 6,
            "single"@[0] == 's',
            "single"@[4] == 'l',
            "appears_on"@.len() == 10,
            "appears_on"@[0] == 'a',
            "appears_on"@[4] == 'a',
            "compilation"@.len() == 11,
            "compilation"@[0] == 'c',
            "compilation"@[4] == 'i',
    {
        reveal_strlit("album");
        reveal_strlit("single");
        reveal_strlit("appears_on");
        reveal_strlit("compilation");
    }

    /// Every member is read back from its own spelling.
    pub proof fn lemma_round_trip(v: AlbumType)
        ensures
            AlbumType::from_name(v.name()) == Some(v),
    {
        AlbumType::lemma_spellings();
    }

    /// A string that spells no member is read as no member.
    pub proof fn lemma_rejects_unknown(s: Seq<char>)
        requires
            forall|v: AlbumType| #[trigger] v.name() != s,
        ensures
            AlbumType::from_name(s) is None,
    {
        assert(AlbumType::Album.name() != s);
        assert(AlbumType::Single.name() != s);
        assert(AlbumType::AppearsOn.name() != s);
        assert(AlbumType::Compilation.name() != s);
    }
}

/// Type: 'artist', 'album', 'track', 'playlist', 'user', 'show' or 'episode'
#[derive(Clone, Copy, Debug, PartialEq, Eq, Structural)]
pub enum Type {
    Artist,
    Album,
    Track,
    Playlist,
    User,
    Show,
    Episode,
}

impl Type {
    /// The canonical spelling of the member.
    pub open spec fn name(self) -> Seq<char> {
        match self {
            Type::Artist => "artist"@,
            Type::Album => "album"@,
            Type::Track => "track"@,
            Type::Playlist => "playlist"@,
            Type::User => "user"@,
            Type::Show => "show"@,
            Type::Episode => "episode"@,
        }
    }

    /// The member spelled `s`, if any.
    pub open spec fn from_name(s: Seq<char>) -> Option<Type> {
        if s == "artist"@ {
            Some(Type::Artist)
        } else if s == "album"@ {
            Some(Type::Album)
        } else if s == "track"@ {
            Some(Type::Track)
        } else if s == "playlist"@ {
            Some(Type::Playlist)
        } else if s == "user"@ {
            Some(Type::User)
        } else if s == "show"@ {
            Some(Type::Show)
        } else if s == "episode"@ {
            Some(Type::Episode)
        } else {
            None
        }
    }

    /// The canonical spelling of the member.
    pub fn as_ref(&self) -> (r: &'static str)
        ensures
            r@ == self.name(),
    {
        match self {
            Type::Artist => "artist",
            Type::Album => "album",
            Type::Track => "track",
            Type::Playlist => "playlist",
            Type::User => "user",
            Type::Show => "show",
            Type::Episode => "episode",
        }
    }

    /// The canonical spelling of the member, as an owned string.
    pub fn to_string(&self) -> (r: String)
        ensures
            r@ == self.name(),
    {
        self.as_ref().to_owned()
    }

    /// Reads a member from its canonical spelling; any other string is rejected.
    pub fn from_str(s: &str) -> (r: Result<Type, EnumError>)
        ensures
            match r {
                Ok(v) => Type::from_name(s@) == Some(v),
                Err(e) => Type::from_name(s@) is None && e.rejected() == s@,
            },
    {
        let t = s.to_owned();
        if t == "artist".to_owned() {
            Ok(Type::Artist)
        } else if t == "album".to_owned() {
            Ok(Type::Album)
        } else if t == "track".to_owned() {
            Ok(Type::Track)
        } else if t == "playlist".to_owned() {
            Ok(Type::Playlist)
        } else if t == "user".to_owned() {
            Ok(Type::User)
        } else if t == "show".to_owned() {
            Ok(Type::Show)
        } else if t == "episode".to_owned() {
            Ok(Type::Episode)
        } else {
            Err(EnumError::no_enum(s))
        }
    }

    /// Facts about the literal spellings that tell them apart.
    proof fn lemma_spellings()
        ensures
            "artist"@.len() == 6,
            "artist"@[0] == 'a',
            "artist"@[4] == 's',
            "album"@.len() == 5,
            "album"@[0] == 'a',
            "album"@[4] == 'm',
            "track"@.len() == 5,
            "track"@[0] == 't',
            "track"@[4] == 'k',
            "playlist"@.len() == 8,
            "playlist"@[0] == 'p',
            "playlist"@[4] == 'l',
            "user"@.len() == 4,
            "user"@[0] == 'u',
            "show"@.len() == 4,
            "show"@[0] == 's',
            "episode"@.len() == 7,
            "episode"@[0] == 'e',
            "episode"@[4] == 'o',
    {
        reveal_strlit("artist");
        reveal_strlit("album");
        reveal_strlit("track");
        reveal_strlit("playlist");
        reveal_strlit("user");
        reveal_strlit("show");
        reveal_strlit("episode");
    }

    /// Every member is read back from its own spelling.
    pub proof fn lemma_round_trip(v: Type)
        ensures
            Type::from_name(v.name()) == Some(v),
    {
        Type::lemma_spellings();
    }

    /// A string that spells no member is read as no member.
    pub proof fn lemma_rejects_unknown(s: Seq<char>)
        requires
            forall|v: Type| #[trigger] v.name() != s,
        ensures
            Type::from_name(s) is None,
    {
        assert(Type::Artist.name() != s);
        assert(Type::Album.name() != s);
        assert(Type::Track.name() != s);
        assert(Type::Playlist.name() != s);
        assert(Type::User.name() != s);
        assert(Type::Show.name() != s);
        assert(Type::Episode.name() != s);
    }
}

/// additional_types: track, episode
#[derive(Clone, Copy, Debug, PartialEq, Eq, Structural)]
pub enum AdditionalType {
    Track,
    Episode,
}

impl AdditionalType {
    /// The canonical spelling of the member.
    pub open spec fn name(self) -> Seq<char> {
        match self {
            AdditionalType::Track => "track"@,
            AdditionalType::Episode => "episode"@,
        }
    }

    /// The member spelled `s`, if any.
    pub open spec fn from_name(s: Seq<char>) -> Option<AdditionalType> {
        if s == "track"@ {
            Some(AdditionalType::Track)
        } else if s == "episode"@ {
            Some(AdditionalType::Episode)
        } else {
            None
        }
    }

    /// The canonical spelling of the member.
    pub fn as_ref(&self) -> (r: &'static str)
        ensures
            r@ == self.name(),
    {
        match self {
            AdditionalType::Track => "track",
            AdditionalType::Episode => "episode",
        }
    }

    /// The canonical spelling of the member, as an owned string.
    pub fn to_string(&self) -> (r: String)
        ensures
            r@ == self.name(),
    {
        self.as_ref().to_owned()
    }

    /// Reads a member from its canonical spelling; any other string is rejected.
    pub fn from_str(s: &str) -> (r: Result<AdditionalType, EnumError>)
        ensures
            match r {
                Ok(v) => AdditionalType::from_name(s@) == Some(v),
                Err(e) => AdditionalType::from_name(s@) is None && e.rejected() == s@,
            },
    {
        let t = s.to_owned();
        if t == "track".to_owned() {
            Ok(AdditionalType::Track)
        } else if t == "episode".to_owned() {
            Ok(AdditionalType::Episode)
        } else {
            Err(EnumError::no_enum(s))
        }
    }

    /// Facts about the literal spellings that tell them apart.
    proof fn lemma_spellings()
        ensures
            "track"@.len() == 5,
            "track"@[0] == 't',
            "track"@[4] == 'k',
            "episode"@.len() == 7,
            "episode"@[0] == 'e',
            "episode"@[4] == 'o',
    {
        reveal_strlit("track");
        reveal_strlit("episode");
    }

    /// Every member is read back from its own spelling.
    pub proof fn lemma_round_trip(v: AdditionalType)
        ensures
            AdditionalType::from_name(v.name()) == Some(v),
    {
        AdditionalType::lemma_spellings();
    }

    /// A string that spells no member is read as no member.
    pub proof fn lemma_rejects_unknown(s: Seq<char>)
        requires
            forall|v: AdditionalType| #[trigger] v.name() != s,
        ensures
            AdditionalType::from_name(s) is None,
    {
        assert(AdditionalType::Track.name() != s);
        assert(AdditionalType::Episode.name() != s);
    }
}

/// currently_playing_type: track, episode, ad, unknown.
#[derive(Clone, Copy, Debug, PartialEq, Eq, Structural)]
pub enum CurrentlyPlayingType {
    Track,
    Episode,
    Advertisement,
    Unknown,
}

impl CurrentlyPlayingType {
    /// The canonical spelling of the member.
    pub open spec fn name(self) -> Seq<char> {
        match self {
            CurrentlyPlayingType::Track => "track"@,
            CurrentlyPlayingType::Episode => "episode"@,
            CurrentlyPlayingType::Advertisement => "ad"@,
            CurrentlyPlayingType::Unknown => "unknown"@,
        }
    }

    /// The member spelled `s`, if any.
    pub open spec fn from_name(s: Seq<char>) -> Option<CurrentlyPlayingType> {
        if s == "track"@ {
            Some(CurrentlyPlayingType::Track)
        } else if s == "episode"@ {
            Some(CurrentlyPlayingType::Episode)
        } else if s == "ad"@ {
            Some(CurrentlyPlayingType::Advertisement)
        } else if s == "unknown"@ {
            Some(CurrentlyPlayingType::Unknown)
        } else {
            None
        }
    }

    /// The canonical spelling of the member.
    pub fn as_ref(&self) -> (r: &'static str)
        ensures
            r@ == self.name(),
    {
        match self {
            CurrentlyPlayingType::Track => "track",
            CurrentlyPlayingType::Episode => "episode",
            CurrentlyPlayingType::Advertisement => "ad",
            CurrentlyPlayingType::Unknown => "unknown",
        }
    }

    /// The canonical spelling of the member, as an owned string.
    pub fn to_string(&self) -> (r: String)
        ensures
            r@ == self.name(),
    {
        self.as_ref().to_owned()
    }

    /// Reads a member from its canonical spelling; any other string is rejected.
    pub fn from_str(s: &str) -> (r: Result<CurrentlyPlayingType, EnumError>)
        ensures
            match r {
                Ok(v) => CurrentlyPlayingType::from_name(s@) == Some(v),
                Err(e) => CurrentlyPlayingType::from_name(s@) is None && e.rejected() == s@,
            },
    {
        let t = s.to_owned();
        if t == "track".to_owned() {
            Ok(CurrentlyPlayingType::Track)
        } else if t == "episode".to_owned() {
            Ok(CurrentlyPlayingType::Episode)
        } else if t == "ad".to_owned() {
            Ok(CurrentlyPlayingType::Advertisement)
        } else if t == "unknown".to_owned() {
            Ok(CurrentlyPlayingType::Unknown)
        } else {
            Err(EnumError::no_enum(s))
        }
    }

    /// Facts about the literal spellings that tell them apart.
    proof fn lemma_spellings()
        ensures
            "track"@.len() == 5,
            "track"@[0] == 't',
            "track"@[4] == 'k',
            "episode"@.len() == 7,
            "episode"@[0] == 'e',
            "episode"@[4] == 'o',
            "ad"@.len() == 2,
            "ad"@[0] == 'a',
            "unknown"@.len() == 7,
            "unknown"@[0] == 'u',
            "unknown"@[4] == 'o',
    {
        reveal_strlit("track");
        reveal_strlit("episode");
        reveal_strlit("ad");
        reveal_strlit("unknown");
    }

    /// Every member is read back from its own spelling.
    pub proof fn lemma_round_trip(v: CurrentlyPlayingType)
        ensures
            CurrentlyPlayingType::from_name(v.name()) == Some(v),
    {
        CurrentlyPlayingType::lemma_spellings();
    }

    /// A string that spells no member is read as no member.
    pub proof fn lemma_rejects_unknown(s: Seq<char>)
        requires
            forall|v: CurrentlyPlayingType| #[trigger] v.name() != s,
        ensures
            CurrentlyPlayingType::from_name(s) is None,
    {
        assert(CurrentlyPlayingType::Track.name() != s);
        assert(CurrentlyPlayingType::Episode.name() != s);
        assert(CurrentlyPlayingType::Advertisement.name() != s);
        assert(CurrentlyPlayingType::Unknown.name() != s);
    }
}

/// Type for search: artist, album, track, playlist, show, episode
#[derive(Clone, Copy, Debug, PartialEq, Eq, Structural)]
pub enum SearchType {
    Artist,
    Album,
    Track,
    Playlist,
    Show,
    Episode,
}

impl SearchType {
    /// The canonical spelling of the member.
    pub open spec fn name(self) -> Seq<char> {
        match self {
            SearchType::Artist => "artist"@,
            SearchType::Album => "album"@,
            SearchType::Track => "track"@,
            SearchType::Playlist => "playlist"@,
            SearchType::Show => "show"@,
            SearchType::Episode => "episode"@,
        }
    }

    /// The member spelled `s`, if any.
    pub open spec fn from_name(s: Seq<char>) -> Option<SearchType> {
        if s == "artist"@ {
            Some(SearchType::Artist)
        } else if s == "album"@ {
            Some(SearchType::Album)
        } else if s == "track"@ {
            Some(SearchType::Track)
        } else if s == "playlist"@ {
            Some(SearchType::Playlist)
        } else if s == "show"@ {
            Some(SearchType::Show)
        } else if s == "episode"@ {
            Some(SearchType::Episode)
        } else {
            None
        }
    }

    /// The canonical spelling of the member.
    pub fn as_ref(&self) -> (r: &'static str)
        ensures
            r@ == self.name(),
    {
        match self {
            SearchType::Artist => "artist",
            SearchType::Album => "album",
            SearchType::Track => "track",
            SearchType::Playlist => "playlist",
            SearchType::Show => "show",
            SearchType::Episode => "episode",
        }
    }

    /// The canonical spelling of the member, as an owned string.
    pub fn to_string(&self) -> (r: String)
        ensures
            r@ == self.name(),
    {
        self.as_ref().to_owned()
    }

    /// Reads a member from its canonical spelling; any other string is rejected.
    pub fn from_str(s: &str) -> (r: Result<SearchType, EnumError>)
        ensures
            match r {
                Ok(v) => SearchType::from_name(s@) == Some(v),
                Err(e) => SearchType::from_name(s@) is None && e.rejected() == s@,
            },
    {
        let t = s.to_owned();
        if t == "artist".to_owned() {
            Ok(SearchType::Artist)
        } else if t == "album".to_owned() {
            Ok(SearchType::Album)
        } else if t == "track".to_owned() {
            Ok(SearchType::Track)
        } else if t == "playlist".to_owned() {
            Ok(SearchType::Playlist)
        } else if t == "show".to_owned() {
            Ok(SearchType::Show)
        } else if t == "episode".to_owned() {
            Ok(SearchType::Episode)
        } else {
            Err(EnumError::no_enum(s))
        }
    }

    /// Facts about the literal spellings that tell them apart.
    proof fn lemma_spellings()
        ensures
            "artist"@.len() == 6,
            "artist"@[0] == 'a',
            "artist"@[4] == 's',
            "album"@.len() == 5,
            "album"@[0] == 'a',
            "album"@[4] == 'm',
            "track"@.len() == 5,
            "track"@[0] == 't',
            "track"@[4] == 'k',
            "playlist"@.len() == 8,
            "playlist"@[0] == 'p',
            "playlist"@[4] == 'l',
            "show"@.len() == 4,
            "show"@[0] == 's',
            "episode"@.len() == 7,
            "episode"@[0] == 'e',
            "episode"@[4] == 'o',
    {
        reveal_strlit("artist");
        reveal_strlit("album");
        reveal_strlit("track");
        reveal_strlit("playlist");
        reveal_strlit("show");
        reveal_strlit("episode");
    }

    /// Every member is read back from its own spelling.
    pub proof fn lemma_round_trip(v: SearchType)
        ensures
            SearchType::from_name(v.name()) == Some(v),
    {
        SearchType::lemma_spellings();
    }

    /// A string that spells no member is read as no member.
    pub proof fn lemma_rejects_unknown(s: Seq<char>)
        requires
            forall|v: SearchType| #[trigger] v.name() != s,
        ensures
            SearchType::from_name(s) is None,
    {
        assert(SearchType::Artist.name() != s);
        assert(SearchType::Album.name() != s);
        assert(SearchType::Track.name() != s);
        assert(SearchType::Playlist.name() != s);
        assert(SearchType::Show.name() != s);
        assert(SearchType::Episode.name() != s);
    }
}

/// Device Type: computer, smartphone, speaker, TV, etc.
/// Each member is spelled as its own name.
#[derive(Clone, Copy, Debug, PartialEq, Eq, Structural)]
pub enum DeviceType {
    Computer,
    Tablet,
    Smartphone,
    Speaker,
    TV,
    AVR,
    STB,
    AudioDongle,
    GameConsole,
    CastVideo,
    CastAudio,
    Automobile,
    Unknown,
}

impl DeviceType {
    /// The canonical spelling of the member.
    pub open spec fn name(self) -> Seq<char> {
        match self {
            DeviceType::Computer => "Computer"@,
            DeviceType::Tablet => "Tablet"@,
            DeviceType::Smartphone => "Smartphone"@,
            DeviceType::Speaker => "Speaker"@,
            DeviceType::TV => "TV"@,
            DeviceType::AVR => "AVR"@,
            DeviceType::STB => "STB"@,
            DeviceType::AudioDongle => "AudioDongle"@,
            DeviceType::GameConsole => "GameConsole"@,
            DeviceType::CastVideo => "CastVideo"@,
            DeviceType::CastAudio => "CastAudio"@,
            DeviceType::Automobile => "Automobile"@,
            DeviceType::Unknown => "Unknown"@,
        }
    }

    /// The member spelled `s`, if any.
    pub open spec fn from_name(s: Seq<char>) -> Option<DeviceType> {
        if s == "Computer"@ {
            Some(DeviceType::Computer)
        } else if s == "Tablet"@ {
            Some(DeviceType::Tablet)
        } else if s == "Smartphone"@ {
            Some(DeviceType::Smartphone)
        } else if s == "Speaker"@ {
            Some(DeviceType::Speaker)
        } else if s == "TV"@ {
            Some(DeviceType::TV)
        } else if s == "AVR"@ {
            Some(DeviceType::AVR)
        } else if s == "STB"@ {
            Some(DeviceType::STB)
        } else if s == "AudioDongle"@ {
            Some(DeviceType::AudioDongle)
        } else if s == "GameConsole"@ {
            Some(DeviceType::GameConsole)
        } else if s == "CastVideo"@ {
            Some(DeviceType::CastVideo)
        } else if s == "CastAudio"@ {
            Some(DeviceType::CastAudio)
        } else if s == "Automobile"@ {
            Some(DeviceType::Automobile)
        } else if s == "Unknown"@ {
            Some(DeviceType::Unknown)
        } else {
            None
        }
    }

    /// The canonical spelling of the member.
    pub fn as_ref(&self) -> (r: &'static str)
        ensures
            r@ == self.name(),
    {
        match self {
            DeviceType::Computer => "Computer",
            DeviceType::Tablet => "Tablet",
            DeviceType::Smartphone => "Smartphone",
            DeviceType::Speaker => "Speaker",
            DeviceType::TV => "TV",
            DeviceType::AVR => "AVR",
            DeviceType::STB => "STB",
            DeviceType::AudioDongle => "AudioDongle",
            DeviceType::GameConsole => "GameConsole",
            DeviceType::CastVideo => "CastVideo",
            DeviceType::CastAudio => "CastAudio",
            DeviceType::Automobile => "Automobile",
            DeviceType::Unknown => "Unknown",
        }
    }

    /// The canonical spelling of the member, as an owned string.
    pub fn to_string(&self) -> (r: String)
        ensures
            r@ == self.name(),
    {
        self.as_ref().to_owned()
    }

    /// Reads a member from its canonical spelling; any other string is rejected.
    pub fn from_str(s: &str) -> (r: Result<DeviceType, EnumError>)
        ensures
            match r {
                Ok(v) => DeviceType::from_name(s@) == Some(v),
                Err(e) => DeviceType::from_name(s@) is None && e.rejected() == s@,
            },
    {
        let t = s.to_owned();
        if t == "Computer".to_owned() {
            Ok(DeviceType::Computer)
        } else if t == "Tablet".to_owned() {
            Ok(DeviceType::Tablet)
        } else if t == "Smartphone".to_owned() {
            Ok(DeviceType::Smartphone)
        } else if t == "Speaker".to_owned() {
            Ok(DeviceType::Speaker)
        } else if t == "TV".to_owned() {
            Ok(DeviceType::TV)
        } else if t == "AVR".to_owned() {
            Ok(DeviceType::AVR)
        } else if t == "STB".to_owned() {
            Ok(DeviceType::STB)
        } else if t == "AudioDongle".to_owned() {
            Ok(DeviceType::AudioDongle)
        } else if t == "GameConsole".to_owned() {
            Ok(DeviceType::GameConsole)
        } else if t == "CastVideo".to_owned() {
            Ok(DeviceType::CastVideo)
        } else if t == "CastAudio".to_owned() {
            Ok(DeviceType::CastAudio)
        } else if t == "Automobile".to_owned() {
            Ok(DeviceType::Automobile)
        } else if t == "Unknown".to_owned() {
            Ok(DeviceType::Unknown)
        } else {
            Err(EnumError::no_enum(s))
        }
    }

    /// Facts about the literal spellings that tell them apart.
    proof fn lemma_spellings()
        ensures
            "Computer"@.len() == 8,
            "Computer"@[0] == 'C',
            "Computer"@[4] == 'u',
            "Tablet"@.len() == 6,
            "Tablet"@[0] == 'T',
            "Tablet"@[4] == 'e',
            "Smartphone"@.len() == 10,
            "Smartphone"@[0] == 'S',
            "Smartphone"@[4] == 't',
            "Speaker"@.len() == 7,
            "Speaker"@[0] == 'S',
            "Speaker"@[4] == 'k',
            "TV"@.len() == 2,
            "TV"@[0] == 'T',
            "AVR"@.len() == 3,
            "AVR"@[0] == 'A',
            "STB"@.len() == 3,
            "STB"@[0] == 'S',
            "AudioDongle"@.len() == 11,
            "AudioDongle"@[0] == 'A',
            "AudioDongle"@[4] == 'o',
            "GameConsole"@.len() == 11,
            "GameConsole"@[0] == 'G',
            "GameConsole"@[4] == 'C',
            "CastVideo"@.len() == 9,
            "CastVideo"@[0] == 'C',
            "CastVideo"@[4] == 'V',
            "CastAudio"@.len() == 9,
            "CastAudio"@[0] == 'C',
            "CastAudio"@[4] == 'A',
            "Automobile"@.len() == 10,
            "Automobile"@[0] == 'A',
            "Automobile"@[4] == 'm',
            "Unknown"@.len() == 7,
            "Unknown"@[0] == 'U',
            "Unknown"@[4] == 'o',
    {
        reveal_strlit("Computer");
        reveal_strlit("Tablet");
        reveal_strlit("Smartphone");
        reveal_strlit("Speaker");
        reveal_strlit("TV");
        reveal_strlit("AVR");
        reveal_strlit("STB");
        reveal_strlit("AudioDongle");
        reveal_strlit("GameConsole");
        reveal_strlit("CastVideo");
        reveal_strlit("CastAudio");
        reveal_strlit("Automobile");
        reveal_strlit("Unknown");
    }

    /// Every member is read back from its own spelling.
    pub proof fn lemma_round_trip(v: DeviceType)
        ensures
            DeviceType::from_name(v.name()) == Some(v),
    {
        DeviceType::lemma_spellings();
    }

    /// A string that spells no member is read as no member.
    pub proof fn lemma_rejects_unknown(s: Seq<char>)
        requires
            forall|v: DeviceType| #[trigger] v.name() != s,
        ensures
            DeviceType::from_name(s) is None,
    {
        assert(DeviceType::Computer.name() != s);
        assert(DeviceType::Tablet.name() != s);
        assert(DeviceType::Smartphone.name() != s);
        assert(DeviceType::Speaker.name() != s);
        assert(DeviceType::TV.name() != s);
        assert(DeviceType::AVR.name() != s);
        assert(DeviceType::STB.name() != s);
        assert(DeviceType::AudioDongle.name() != s);
        assert(DeviceType::GameConsole.name() != s);
        assert(DeviceType::CastVideo.name() != s);
        assert(DeviceType::CastAudio.name() != s);
        assert(DeviceType::Automobile.name() != s);
        assert(DeviceType::Unknown.name() != s);
    }
}


} // verus!
