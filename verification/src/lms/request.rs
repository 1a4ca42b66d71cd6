//! The requests sent to the media server. Each one names a player (or none,
//! for the server itself) and carries the words of one command of the
//! server's command-line interface. A query ends in `?`, and the server
//! answers it under a key derived from the queried attribute.
use vstd::prelude::*;
use vstd::string::*;

verus! {

/// How the server names the answer to a query in its result object.
#[derive(Clone, Copy, Debug, PartialEq, Eq, Structural)]
pub enum KeyConvention {
    /// The attribute's name behind an underscore: `_mode`.
    Prefixed,
    /// The attribute's name as it is: `mode`.
    Verbatim,
}

impl KeyConvention {
    /// The key under which the answer to a query for `attribute` is found.
    pub open spec fn key_of(self, attribute: Seq<char>) -> Seq<char> {
        match self {
            KeyConvention::Prefixed => seq!['_'] + attribute,
            KeyConvention::Verbatim => attribute,
        }
    }

    /// The key under which the answer to a query for `attribute` is found.
    pub fn result_key(&self, attribute: &str) -> (key: String)
        ensures
            key@ == self.key_of(attribute@),
    {
        match self {
            KeyConvention::Prefixed => {
                proof {
                    reveal_strlit("_");
                    assert("_"@ =~= seq!['_']);
                }
                "_".to_owned().concat(attribute)
            },
            KeyConvention::Verbatim => attribute.to_owned(),
        }
    }
}

/// A request to the media server.
#[derive(Debug)]
pub struct LmsRequest {
    method: String,
    player: String,
    arguments: Vec<String>,
}

/// The mathematical value of an [`LmsRequest`].
pub struct LmsRequestView {
    pub method: Seq<char>,
    pub player: Seq<char>,
    pub arguments: Seq<Seq<char>>,
}

/// The texts that a sequence of strings holds.
pub open spec fn texts(strings: Seq<String>) -> Seq<Seq<char>> {
    strings.map_values(|s: String| s@)
}

/// The request to `player` that carries `arguments`.
pub open spec fn request(player: Seq<char>, arguments: Seq<Seq<char>>) -> LmsRequestView {
    LmsRequestView { method: "slim.request"@, player, arguments }
}

impl View for LmsRequest {
    type V = LmsRequestView;

    closed spec fn view(&self) -> LmsRequestView {
        LmsRequestView {
            method: self.method@,
            player: self.player@,
            arguments: texts(self.arguments@),
        }
    }
}

impl LmsRequest {
    /// A request to the player `id` without arguments; the empty `id`
    /// addresses the server itself.
    pub fn new(id: String) -> (r: Self)
        ensures
            r@ == request(id@, seq![]),
    {
        let r = Self { method: "slim.request".to_owned(), player: id, arguments: Vec::new() };
        assert(texts(r.arguments@) =~= seq![]);
        r
    }

    /// The request with `param` as one more argument.
    pub fn add_param(self, param: String) -> (r: Self)
        ensures
            r@ == (LmsRequestView { arguments: self@.arguments.push(param@), ..self@ }),
    {
        let mut r = self;
        r.arguments.push(param);
        assert(texts(r.arguments@) =~= texts(self.arguments@).push(param@));
        r
    }

    /// The method of the remote procedure call, always `slim.request`.
    pub fn method(&self) -> (r: &String)
        ensures
            r@ == self@.method,
    {
        &self.method
    }

    /// The player that the request addresses.
    pub fn player(&self) -> (r: &String)
        ensures
            r@ == self@.player,
    {
        &self.player
    }

    /// The words of the command.
    pub fn arguments(&self) -> (r: &Vec<String>)
        ensures
            texts(r@) == self@.arguments,
    {
        &self.arguments
    }

    /// The query for `key`, and the key of the answer when the server
    /// prefixes it.
    pub fn question(self, key: String) -> (r: (Self, String))
        ensures
            r.0@ == (LmsRequestView {
                arguments: self@.arguments.push(key@).push("?"@),
                ..self@
            }),
            r.1@ == KeyConvention::Prefixed.key_of(key@),
    {
        let field = KeyConvention::Prefixed.result_key(key.as_str());
        (self.add_param(key).add_param("?".to_owned()), field)
    }

    /// Asks the server for its version.
    pub fn version() -> (r: (Self, String))
        ensures
            r.0@ == request(seq![], seq!["version"@, "?"@]),
            r.1@ == KeyConvention::Prefixed.key_of("version"@),
    {
        let r = Self::new("".to_owned()).question("version".to_owned());
        proof {
            reveal_strlit("");
            assert(""@ =~= seq![]);
            assert(r.0@.arguments =~= seq!["version"@, "?"@]);
        }
        r
    }

    /// Asks whether the player `id` is connected to the server.
    pub fn connected(id: String) -> (r: (Self, String))
        ensures
            r.0@ == request(id@, seq!["connected"@, "?"@]),
            r.1@ == KeyConvention::Prefixed.key_of("connected"@),
    {
        let r = Self::new(id).question("connected".to_owned());
        proof {
            assert(r.0@.arguments =~= seq!["connected"@, "?"@]);
        }
        r
    }

    /// Asks for the players that the server knows, from the first one on.
    pub fn players() -> (r: Self)
        ensures
            r@ == request(seq![], seq!["players"@, "0"@]),
    {
        let r = Self::new("".to_owned()).add_param("players".to_owned()).add_param("0".to_owned());
        proof {
            reveal_strlit("");
            assert(""@ =~= seq![]);
            assert(r@.arguments =~= seq!["players"@, "0"@]);
        }
        r
    }

    /// Asks for the players, and names the key that holds their list.
    pub fn players_loop() -> (r: (Self, String))
        ensures
            r.0@ == request(seq![], seq!["players"@, "0"@]),
            r.1@ == "players_loop"@,
    {
        (Self::players(), "players_loop".to_owned())
    }

    /// Asks for the players, and names the key that holds their number.
    pub fn players_count() -> (r: (Self, String))
        ensures
            r.0@ == request(seq![], seq!["players"@, "0"@]),
            r.1@ == "count"@,
    {
        (Self::players(), "count".to_owned())
    }

    /// Asks for the artist of the current track of the player `id`.
    pub fn artist(id: String) -> (r: (Self, String))
        ensures
            r.0@ == request(id@, seq!["artist"@, "?"@]),
            r.1@ == KeyConvention::Prefixed.key_of("artist"@),
    {
        let r = Self::new(id).question("artist".to_owned());
        proof {
            assert(r.0@.arguments =~= seq!["artist"@, "?"@]);
        }
        r
    }

    /// Asks for the title of the current track of the player `id`.
    pub fn title(id: String) -> (r: (Self, String))
        ensures
            r.0@ == request(id@, seq!["title"@, "?"@]),
            r.1@ == KeyConvention::Prefixed.key_of("title"@),
    {
        let r = Self::new(id).question("title".to_owned());
        proof {
            assert(r.0@.arguments =~= seq!["title"@, "?"@]);
        }
        r
    }

    /// Asks for the album of the current track of the player `id`.
    pub fn album(id: String) -> (r: (Self, String))
        ensures
            r.0@ == request(id@, seq!["album"@, "?"@]),
            r.1@ == KeyConvention::Prefixed.key_of("album"@),
    {
        let r = Self::new(id).question("album".to_owned());
        proof {
            assert(r.0@.arguments =~= seq!["album"@, "?"@]);
        }
        r
    }

    /// Asks for the title that the player `id` displays, which for a
    /// remote stream is the station's.
    pub fn current_title(id: String) -> (r: (Self, String))
        ensures
            r.0@ == request(id@, seq!["current_title"@, "?"@]),
            r.1@ == KeyConvention::Prefixed.key_of("current_title"@),
    {
        let r = Self::new(id).question("current_title".to_owned());
        proof {
            assert(r.0@.arguments =~= seq!["current_title"@, "?"@]);
        }
        r
    }

    /// Asks whether the player `id` plays, pauses or has stopped.
    pub fn mode(id: String) -> (r: (Self, String))
        ensures
            r.0@ == request(id@, seq!["mode"@, "?"@]),
            r.1@ == KeyConvention::Prefixed.key_of("mode"@),
    {
        let r = Self::new(id).question("mode".to_owned());
        proof {
            assert(r.0@.arguments =~= seq!["mode"@, "?"@]);
        }
        r
    }

    /// A command on the playlist of the player `id`.
    pub fn playlist(id: String) -> (r: Self)
        ensures
            r@ == request(id@, seq!["playlist"@]),
    {
        let r = Self::new(id).add_param("playlist".to_owned());
        assert(r@.arguments =~= seq!["playlist"@]);
        r
    }

    /// Asks how the player `id` shuffles its playlist.
    pub fn shuffle(id: String) -> (r: (Self, String))
        ensures
            r.0@ == request(id@, seq!["playlist"@, "shuffle"@, "?"@]),
            r.1@ == KeyConvention::Prefixed.key_of("shuffle"@),
    {
        let r = Self::playlist(id).question("shuffle".to_owned());
        proof {
            assert(r.0@.arguments =~= seq!["playlist"@, "shuffle"@, "?"@]);
        }
        r
    }

    /// Asks for the position of the current track in the playlist of the
    /// player `id`.
    pub fn index(id: String) -> (r: (Self, String))
        ensures
            r.0@ == request(id@, seq!["playlist"@, "index"@, "?"@]),
            r.1@ == KeyConvention::Prefixed.key_of("index"@),
    {
        let r = Self::playlist(id).question("index".to_owned());
        proof {
            assert(r.0@.arguments =~= seq!["playlist"@, "index"@, "?"@]);
        }
        r
    }

    /// Asks for the number of tracks in the playlist of the player `id`.
    pub fn track_count(id: String) -> (r: (Self, String))
        ensures
            r.0@ == request(id@, seq!["playlist"@, "tracks"@, "?"@]),
            r.1@ == KeyConvention::Prefixed.key_of("tracks"@),
    {
        let r = Self::playlist(id).question("tracks".to_owned());
        proof {
            assert(r.0@.arguments =~= seq!["playlist"@, "tracks"@, "?"@]);
        }
        r
    }

    /// Starts the player `id`.
    pub fn play(id: String) -> (r: Self)
        ensures
            r@ == request(id@, seq!["play"@]),
    {
        let r = Self::new(id).add_param("play".to_owned());
        assert(r@.arguments =~= seq!["play"@]);
        r
    }

    /// Stops the player `id`.
    pub fn stop(id: String) -> (r: Self)
        ensures
            r@ == request(id@, seq!["stop"@]),
    {
        let r = Self::new(id).add_param("stop".to_owned());
        assert(r@.arguments =~= seq!["stop"@]);
        r
    }

    /// Pauses the player `id`.
    pub fn pause(id: String) -> (r: Self)
        ensures
            r@ == request(id@, seq!["pause"@, "1"@]),
    {
        let r = Self::new(id).add_param("pause".to_owned()).add_param("1".to_owned());
        assert(r@.arguments =~= seq!["pause"@, "1"@]);
        r
    }

    /// Pauses the player `id` if it plays, and resumes it if it pauses.
    pub fn play_pause(id: String) -> (r: Self)
        ensures
            r@ == request(id@, seq!["pause"@]),
    {
        let r = Self::new(id).add_param("pause".to_owned());
        assert(r@.arguments =~= seq!["pause"@]);
        r
    }

    /// Moves the player `id` to the previous track of its playlist.
    pub fn previous(id: String) -> (r: Self)
        ensures
            r@ == request(id@, seq!["playlist"@, "index"@, "-1"@]),
    {
        let r = Self::playlist(id).add_param("index".to_owned()).add_param("-1".to_owned());
        assert(r@.arguments =~= seq!["playlist"@, "index"@, "-1"@]);
        r
    }

    /// Moves the player `id` to the next track of its playlist.
    pub fn next(id: String) -> (r: Self)
        ensures
            r@ == request(id@, seq!["playlist"@, "index"@, "+1"@]),
    {
        let r = Self::playlist(id).add_param("index".to_owned()).add_param("+1".to_owned());
        assert(r@.arguments =~= seq!["playlist"@, "index"@, "+1"@]);
        r
    }
}

} // verus!
