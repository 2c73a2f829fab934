//! The command line, and the peer connection that it asks for.

use crate::text::same_text;
use vstd::prelude::*;

verus! {

/// Why the command line cannot be used.
#[derive(Debug, Clone, Copy, PartialEq, Eq, Structural)]
pub enum ArgumentError {
    /// There is no user name.
    UsernameNotFound,
    /// There is no password.
    PasswordNotFound,
}

impl ArgumentError {
    /// What to tell the user.
    pub fn message(&self) -> (r: &'static str)
        ensures
            r@ == (match *self {
                ArgumentError::UsernameNotFound => "username not found"@,
                ArgumentError::PasswordNotFound => "password not found"@,
            }),
    {
        match *self {
            ArgumentError::UsernameNotFound => "username not found",
            ArgumentError::PasswordNotFound => "password not found",
        }
    }
}

/// What the command line says.
#[derive(Debug)]
pub struct Options {
    /// The user name at the relay.
    pub username: String,
    /// The password at the relay.
    pub password: String,
    /// Whether all traffic is to go through the relay.
    pub relay: bool,
}

/// [`Options`] by what they hold.
pub struct OptionsView {
    pub username: Seq<char>,
    pub password: Seq<char>,
    pub relay: bool,
}

impl View for Options {
    type V = OptionsView;

    open spec fn view(&self) -> OptionsView {
        OptionsView { username: self.username@, password: self.password@, relay: self.relay }
    }
}

/// The texts of a list of strings.
pub open spec fn texts(v: Seq<String>) -> Seq<Seq<char>> {
    v.map_values(|s: String| s@)
}

/// What a command line says. Its first word is the name of the program; the user name and the
/// password follow; `relay` as the next word, and nothing else, asks for the relay.
pub open spec fn options_of(args: Seq<Seq<char>>) -> Result<OptionsView, ArgumentError> {
    if args.len() < 2 {
        Err(ArgumentError::UsernameNotFound)
    } else if args.len() < 3 {
        Err(ArgumentError::PasswordNotFound)
    } else {
        Ok(
            OptionsView {
                username: args[1],
                password: args[2],
                relay: args.len() > 3 && args[3] == "relay"@,
            },
        )
    }
}

/// Reads the command line, the name of the program included.
pub fn parse_options(args: &Vec<String>) -> (r: Result<Options, ArgumentError>)
    ensures
        match r {
            Ok(options) => options_of(texts(args@)) == Ok::<OptionsView, ArgumentError>(options@),
            Err(e) => options_of(texts(args@)) == Err::<OptionsView, ArgumentError>(e),
        },
        r is Ok <==> args@.len() >= 3,
        r matches Ok(options) ==> options.username@ == args@[1]@ && options.password@ == args@[2]@
            && (options.relay <==> args@.len() > 3 && args@[3]@ == "relay"@),
        r matches Err(e) ==> (e is UsernameNotFound <==> args@.len() < 2),
{
    if args.len() < 2 {
        return Err(ArgumentError::UsernameNotFound);
    }
    if args.len() < 3 {
        return Err(ArgumentError::PasswordNotFound);
    }
    let relay: bool = args.len() > 3 && same_text(args[3].as_str(), "relay");
    Ok(Options { username: args[1].clone(), password: args[2].clone(), relay })
}

/// The user name is the second word of the command line and the password the third, whatever words
/// follow; the relay is asked for if and only if the fourth word is `relay`. Without a third word
/// there is no password, and without a second no user name.
pub proof fn law_command_line(args: Seq<Seq<char>>)
    ensures
        options_of(args) is Ok <==> args.len() >= 3,
        options_of(args) matches Ok(options) ==> {
            &&& options.username == args[1]
            &&& options.password == args[2]
            &&& options.relay <==> args.len() >= 4 && args[3] == "relay"@
        },
        options_of(args) matches Err(e) ==> (e is UsernameNotFound <==> args.len() <= 1) && (
        e is PasswordNotFound <==> args.len() == 2),
{
}

/// Neither the name of the program nor anything behind the fourth word counts, and the fourth word
/// changes neither the user name nor the password.
pub proof fn law_other_words_do_not_count(
    args: Seq<Seq<char>>,
    program: Seq<char>,
    more: Seq<Seq<char>>,
)
    requires
        args.len() >= 3,
    ensures
        options_of(args.update(0, program)) == options_of(args),
        args.len() >= 4 ==> options_of(args + more) == options_of(args),
        options_of(args + more)->Ok_0.username == options_of(args)->Ok_0.username,
        options_of(args + more)->Ok_0.password == options_of(args)->Ok_0.password,
{
}

/// What a server asks for before it serves.
#[derive(Debug)]
pub enum Credentials {
    /// Nothing.
    Anonymous,
    /// A user name and a password.
    Password { username: String, password: String },
}

/// [`Credentials`] by what they hold.
pub enum CredentialsView {
    Anonymous,
    Password { username: Seq<char>, password: Seq<char> },
}

impl View for Credentials {
    type V = CredentialsView;

    open spec fn view(&self) -> CredentialsView {
        match self {
            Credentials::Anonymous => CredentialsView::Anonymous,
            Credentials::Password { username, password } => CredentialsView::Password {
                username: username@,
                password: password@,
            },
        }
    }
}

/// A server that helps two peers to find a path to each other.
#[derive(Debug)]
pub struct IceServer {
    pub url: String,
    pub credentials: Credentials,
}

/// An [`IceServer`] by what it holds.
pub struct IceServerView {
    pub url: Seq<char>,
    pub credentials: CredentialsView,
}

impl View for IceServer {
    type V = IceServerView;

    open spec fn view(&self) -> IceServerView {
        IceServerView { url: self.url@, credentials: self.credentials@ }
    }
}

/// Which paths a peer connection may use.
#[derive(Debug, Clone, Copy, PartialEq, Eq, Structural)]
pub enum TransportPolicy {
    /// Those that it uses unless told otherwise.
    Unrestricted,
    /// Those through a relay only.
    RelayOnly,
}

/// How a peer connection is set up.
#[derive(Debug)]
pub struct RtcConfig {
    pub ice_servers: Vec<IceServer>,
    pub policy: TransportPolicy,
}

/// An [`RtcConfig`] by what it holds.
pub struct RtcConfigView {
    pub ice_servers: Seq<IceServerView>,
    pub policy: TransportPolicy,
}

impl View for RtcConfig {
    type V = RtcConfigView;

    open spec fn view(&self) -> RtcConfigView {
        RtcConfigView {
            ice_servers: self.ice_servers@.map_values(|s: IceServer| s@),
            policy: self.policy,
        }
    }
}

/// The server that tells a peer its public address.
pub open spec fn stun_server() -> IceServerView {
    IceServerView {
        url: "stun:stun.l.google.com:19302"@,
        credentials: CredentialsView::Anonymous,
    }
}

/// The relay, entered with the given user name and password.
pub open spec fn turn_server(username: Seq<char>, password: Seq<char>) -> IceServerView {
    IceServerView {
        url: "turn:35.200.208.109:8080"@,
        credentials: CredentialsView::Password { username, password },
    }
}

/// The set-up that the options ask for: without the relay, the public address is found out and
/// nothing else is said; with it, the relay is named too, and no other path may be used.
pub open spec fn config_of(options: OptionsView) -> RtcConfigView {
    if options.relay {
        RtcConfigView {
            ice_servers: seq![stun_server(), turn_server(options.username, options.password)],
            policy: TransportPolicy::RelayOnly,
        }
    } else {
        RtcConfigView {
            ice_servers: seq![stun_server()],
            policy: TransportPolicy::Unrestricted,
        }
    }
}

/// How the peer connection is set up for `options`.
pub fn rtc_config(options: &Options) -> (r: RtcConfig)
    ensures
        r@ == config_of(options@),
        r.policy is RelayOnly <==> options.relay,
        r.ice_servers@.len() == (if options.relay {
            2int
        } else {
            1int
        }),
        r.ice_servers@[0].url@ == "stun:stun.l.google.com:19302"@,
        r.ice_servers@[0].credentials is Anonymous,
        options.relay ==> r.ice_servers@[1].url@ == "turn:35.200.208.109:8080"@,
        options.relay ==> (r.ice_servers@[1].credentials matches Credentials::Password {
            username,
            password,
        } && username@ == options.username@ && password@ == options.password@),
{
    let mut ice_servers: Vec<IceServer> = Vec::new();
    ice_servers.push(
        IceServer {
            url: "stun:stun.l.google.com:19302".to_owned(),
            credentials: Credentials::Anonymous,
        },
    );
    if options.relay {
        ice_servers.push(
            IceServer {
                url: "turn:35.200.208.109:8080".to_owned(),
                credentials: Credentials::Password {
                    username: options.username.clone(),
                    password: options.password.clone(),
                },
            },
        );
        let r = RtcConfig { ice_servers, policy: TransportPolicy::RelayOnly };
        assert(r@.ice_servers =~= config_of(options@).ice_servers);
        r
    } else {
        let r = RtcConfig { ice_servers, policy: TransportPolicy::Unrestricted };
        assert(r@.ice_servers =~= config_of(options@).ice_servers);
        r
    }
}

/// The user name and the password go to the relay and to nobody else, and only where the relay is
/// asked for; then, and only then, is the relay the one path that may be used.
pub proof fn law_credentials_are_for_the_relay(options: OptionsView)
    ensures
        config_of(options).policy is RelayOnly <==> options.relay,
        forall|i: int|
            0 <= i < config_of(options).ice_servers.len() && (
            #[trigger] config_of(options).ice_servers[i]).credentials is Password
                ==> options.relay && config_of(options).ice_servers[i] == turn_server(
                options.username,
                options.password,
            ),
        options.relay ==> config_of(options).ice_servers.contains(
            turn_server(options.username, options.password),
        ),
{
    if options.relay {
        assert(config_of(options).ice_servers[1] == turn_server(
            options.username,
            options.password,
        ));
    }
}

/// Without the relay there is one server, which tells a peer its address and asks for nothing, and
/// every path may be used. With it, the relay is the second server, it is entered with the user
/// name and the password of the options, and no path but those through it may be used.
pub proof fn law_servers(options: OptionsView)
    ensures
        !options.relay ==> config_of(options) == (RtcConfigView {
            ice_servers: seq![
                IceServerView {
                    url: "stun:stun.l.google.com:19302"@,
                    credentials: CredentialsView::Anonymous,
                },
            ],
            policy: TransportPolicy::Unrestricted,
        }),
        options.relay ==> config_of(options) == (RtcConfigView {
            ice_servers: seq![
                IceServerView {
                    url: "stun:stun.l.google.com:19302"@,
                    credentials: CredentialsView::Anonymous,
                },
                IceServerView {
                    url: "turn:35.200.208.109:8080"@,
                    credentials: CredentialsView::Password {
                        username: options.username,
                        password: options.password,
                    },
                },
            ],
            policy: TransportPolicy::RelayOnly,
        }),
{
}

/// From the command line to the servers: where the fourth word is `relay`, a server is entered with
/// the second word as the user name and the third as the password; otherwise no word of the
/// command line reaches any server.
pub proof fn law_words_reach_the_relay(args: Seq<Seq<char>>)
    requires
        args.len() >= 3,
    ensures
        ({
            let servers = config_of(options_of(args)->Ok_0).ice_servers;
            &&& args.len() >= 4 && args[3] == "relay"@ <==> exists|i: int|
                0 <= i < servers.len() && (#[trigger] servers[i]).credentials is Password
            &&& forall|i: int|
                0 <= i < servers.len() && (#[trigger] servers[i]).credentials is Password
                    ==> servers[i].credentials == (CredentialsView::Password {
                    username: args[1],
                    password: args[2],
                })
        }),
{
    let options = options_of(args)->Ok_0;
    if options.relay {
        assert(config_of(options).ice_servers[1].credentials is Password);
    }
}

} // verus!
