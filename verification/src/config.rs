//! The settings of the sessions, and the fairing that is built up with them.

use crate::time::Span;
use vstd::prelude::*;

verus! {

/// How much of what happens on the database is logged.
#[derive(Clone, Copy, Debug, PartialEq, Eq, Structural)]
pub enum LevelFilter {
    Off,
    Error,
    Warn,
    Info,
    Debug,
    Trace,
}

/// The settings of the sessions.
#[derive(Debug)]
pub struct SqlxSessionConfig {
    /// Sessions lifespan
    lifespan: Span,
    /// Session cookie name
    cookie_name: String,
    /// Session cookie path
    cookie_path: String,
    /// Session ID character length
    cookie_len: usize,
    /// Session Database name
    database: String,
    /// Session Database username for login
    username: String,
    /// Session Database password for login
    password: String,
    /// Session Database Host address
    host: String,
    /// Session Database Port address
    port: u16,
    /// Session Database table name default is async_sessions
    table_name: String,
    /// Session Database Max Poll Connections. Can not be 0
    max_connections: u32,
    /// How long a session stays in memory after its last use. It can stay in the database for
    /// longer, until it is needed again, if it has not expired.
    memory_lifespan: Span,
    /// Log Level for the database
    log_level: LevelFilter,
}

/// What the settings are.
#[verifier::ext_equal]
pub struct ConfigView {
    pub lifespan: Span,
    pub cookie_name: Seq<char>,
    pub cookie_path: Seq<char>,
    pub cookie_len: usize,
    pub database: Seq<char>,
    pub username: Seq<char>,
    pub password: Seq<char>,
    pub host: Seq<char>,
    pub port: u16,
    pub table_name: Seq<char>,
    pub max_connections: u32,
    pub memory_lifespan: Span,
    pub log_level: LevelFilter,
}

impl ConfigView {
    /// The settings with which every fairing begins.
    pub open spec fn initial() -> ConfigView {
        ConfigView {
            lifespan: Span::six_hours(),
            cookie_name: "sqlx_session"@,
            cookie_path: "/"@,
            cookie_len: 16,
            database: ""@,
            username: ""@,
            password: ""@,
            host: "localhost"@,
            port: 5432,
            table_name: "async_sessions"@,
            max_connections: 5,
            memory_lifespan: Span::one_hour(),
            log_level: LevelFilter::Debug,
        }
    }
}

impl View for SqlxSessionConfig {
    type V = ConfigView;

    closed spec fn view(&self) -> ConfigView {
        ConfigView {
            lifespan: self.lifespan,
            cookie_name: self.cookie_name@,
            cookie_path: self.cookie_path@,
            cookie_len: self.cookie_len,
            database: self.database@,
            username: self.username@,
            password: self.password@,
            host: self.host@,
            port: self.port,
            table_name: self.table_name@,
            max_connections: self.max_connections,
            memory_lifespan: self.memory_lifespan,
            log_level: self.log_level,
        }
    }
}

impl Default for SqlxSessionConfig {
    fn default() -> (config: Self)
        ensures
            config@ == ConfigView::initial(),
    {
        SqlxSessionConfig {
            lifespan: Span { secs: 21_600, nanos: 0 },
            cookie_name: "sqlx_session".to_owned(),
            cookie_path: "/".to_owned(),
            cookie_len: 16,
            database: "".to_owned(),
            username: "".to_owned(),
            password: "".to_owned(),
            host: "localhost".to_owned(),
            port: 5432,
            table_name: "async_sessions".to_owned(),
            max_connections: 5,
            memory_lifespan: Span { secs: 3_600, nanos: 0 },
            log_level: LevelFilter::Debug,
        }
    }
}

impl Clone for SqlxSessionConfig {
    fn clone(&self) -> (copy: Self)
        ensures
            copy@ == self@,
    {
        proof {
            use_type_invariant(self);
        }
        SqlxSessionConfig {
            lifespan: self.lifespan,
            cookie_name: self.cookie_name.clone(),
            cookie_path: self.cookie_path.clone(),
            cookie_len: self.cookie_len,
            database: self.database.clone(),
            username: self.username.clone(),
            password: self.password.clone(),
            host: self.host.clone(),
            port: self.port,
            table_name: self.table_name.clone(),
            max_connections: self.max_connections,
            memory_lifespan: self.memory_lifespan,
            log_level: self.log_level,
        }
    }
}

impl SqlxSessionConfig {
    /// The database is never given a pool without connections.
    #[verifier::type_invariant]
    spec fn well_formed(self) -> bool {
        self.max_connections >= 1
    }

    /// How long a session lives in the database after a request.
    pub fn lifespan(&self) -> (lifespan: Span)
        ensures
            lifespan == self@.lifespan,
    {
        self.lifespan
    }

    /// How long a session stays in memory after a request.
    pub fn memory_lifespan(&self) -> (memory_lifespan: Span)
        ensures
            memory_lifespan == self@.memory_lifespan,
    {
        self.memory_lifespan
    }

    /// The name of the cookie that carries the session ID.
    pub fn cookie_name(&self) -> (cookie_name: &str)
        ensures
            cookie_name@ == self@.cookie_name,
    {
        self.cookie_name.as_str()
    }

    /// The path of the cookie that carries the session ID.
    pub fn cookie_path(&self) -> (cookie_path: &str)
        ensures
            cookie_path@ == self@.cookie_path,
    {
        self.cookie_path.as_str()
    }

    /// The number of characters of a new session ID.
    pub fn cookie_len(&self) -> (cookie_len: usize)
        ensures
            cookie_len == self@.cookie_len,
    {
        self.cookie_len
    }

    /// The name of the table that holds the sessions.
    pub fn table_name(&self) -> (table_name: &str)
        ensures
            table_name@ == self@.table_name,
    {
        self.table_name.as_str()
    }

    /// What is needed to connect to the database.
    pub fn connect_settings(&self) -> (settings: ConnectSettings)
        ensures
            settings@ == ConnectSettingsView::of(self@),
            settings.max_connections >= 1,
    {
        proof {
            use_type_invariant(self);
        }
        ConnectSettings {
            database: self.database.clone(),
            username: self.username.clone(),
            password: self.password.clone(),
            host: self.host.clone(),
            port: self.port,
            max_connections: self.max_connections,
            log_level: self.log_level,
        }
    }
}

/// What is needed to connect to the database.
#[derive(Debug)]
pub struct ConnectSettings {
    pub database: String,
    pub username: String,
    pub password: String,
    pub host: String,
    pub port: u16,
    pub max_connections: u32,
    pub log_level: LevelFilter,
}

/// What connection settings stand for.
pub struct ConnectSettingsView {
    pub database: Seq<char>,
    pub username: Seq<char>,
    pub password: Seq<char>,
    pub host: Seq<char>,
    pub port: u16,
    pub max_connections: u32,
    pub log_level: LevelFilter,
}

impl ConnectSettingsView {
    /// The part of the settings that concerns the connection.
    pub open spec fn of(config: ConfigView) -> ConnectSettingsView {
        ConnectSettingsView {
            database: config.database,
            username: config.username,
            password: config.password,
            host: config.host,
            port: config.port,
            max_connections: config.max_connections,
            log_level: config.log_level,
        }
    }
}

impl View for ConnectSettings {
    type V = ConnectSettingsView;

    open spec fn view(&self) -> ConnectSettingsView {
        ConnectSettingsView {
            database: self.database@,
            username: self.username@,
            password: self.password@,
            host: self.host@,
            port: self.port,
            max_connections: self.max_connections,
            log_level: self.log_level,
        }
    }
}

/// Fairing struct: the settings, and a database pool to share, if there is one.
#[derive(Debug)]
pub struct SqlxSessionFairing<P> {
    poll: Option<P>,
    config: SqlxSessionConfig,
}

impl<P> Default for SqlxSessionFairing<P> {
    fn default() -> (fairing: Self)
        ensures
            fairing.config_view() == ConfigView::initial(),
            fairing.poll_view() == None::<P>,
    {
        SqlxSessionFairing { poll: None, config: SqlxSessionConfig::default() }
    }
}

impl<P> SqlxSessionFairing<P> {
    /// The settings.
    pub closed spec fn config_view(&self) -> ConfigView {
        self.config@
    }

    /// The pool to share.
    pub closed spec fn poll_view(&self) -> Option<P> {
        self.poll
    }

    pub fn new() -> (fairing: Self)
        ensures
            fairing.config_view() == ConfigView::initial(),
            fairing.poll_view() == None::<P>,
    {
        Self::default()
    }

    /// The settings.
    pub fn config(&self) -> (config: &SqlxSessionConfig)
        ensures
            config@ == self.config_view(),
    {
        &self.config
    }

    /// The pool to share.
    pub fn poll(&self) -> (poll: Option<&P>)
        ensures
            match poll {
                Some(p) => self.poll_view() == Some(*p),
                None => self.poll_view() is None,
            },
    {
        match &self.poll {
            Some(p) => Some(p),
            None => None,
        }
    }

    /// Set session database pools max connections limit.
    ///
    /// Call on the fairing before attaching it.
    pub fn set_max_connections(self, max: u32) -> (fairing: Self)
        ensures
            fairing.config_view() == (ConfigView {
                max_connections: if max < 1 {
                    1
                } else {
                    max
                },
                ..self.config_view()
            }),
            fairing.poll_view() == self.poll_view(),
    {
        let mut fairing = self;
        proof {
            use_type_invariant(&fairing.config);
        }
        fairing.config.max_connections = if max < 1 { 1 } else { max };
        fairing
    }

    /// Set session lifetime (expiration time) within database storage.
    ///
    /// Call on the fairing before attaching it.
    pub fn with_lifetime(self, time: Span) -> (fairing: Self)
        ensures
            fairing.config_view() == (ConfigView { lifespan: time, ..self.config_view() }),
            fairing.poll_view() == self.poll_view(),
    {
        let mut fairing = self;
        proof {
            use_type_invariant(&fairing.config);
        }
        fairing.config.lifespan = time;
        fairing
    }

    /// Set session lifetime (expiration time) within Memory storage.
    ///
    /// Call on the fairing before attaching it.
    pub fn with_memory_lifetime(self, time: Span) -> (fairing: Self)
        ensures
            fairing.config_view() == (ConfigView { memory_lifespan: time, ..self.config_view() }),
            fairing.poll_view() == self.poll_view(),
    {
        let mut fairing = self;
        proof {
            use_type_invariant(&fairing.config);
        }
        fairing.config.memory_lifespan = time;
        fairing
    }

    /// Set session cookie name
    ///
    /// Call on the fairing before attaching it.
    pub fn with_cookie_name(self, name: &str) -> (fairing: Self)
        ensures
            fairing.config_view() == (ConfigView { cookie_name: name@, ..self.config_view() }),
            fairing.poll_view() == self.poll_view(),
    {
        let mut fairing = self;
        proof {
            use_type_invariant(&fairing.config);
        }
        fairing.config.cookie_name = name.to_owned();
        fairing
    }

    /// Set session cookie length
    ///
    /// Call on the fairing before attaching it.
    pub fn with_cookie_len(self, length: usize) -> (fairing: Self)
        ensures
            fairing.config_view() == (ConfigView { cookie_len: length, ..self.config_view() }),
            fairing.poll_view() == self.poll_view(),
    {
        let mut fairing = self;
        proof {
            use_type_invariant(&fairing.config);
        }
        fairing.config.cookie_len = length;
        fairing
    }

    /// Set session cookie path
    ///
    /// Call on the fairing before attaching it.
    pub fn with_cookie_path(self, path: &str) -> (fairing: Self)
        ensures
            fairing.config_view() == (ConfigView { cookie_path: path@, ..self.config_view() }),
            fairing.poll_view() == self.poll_view(),
    {
        let mut fairing = self;
        proof {
            use_type_invariant(&fairing.config);
        }
        fairing.config.cookie_path = path.to_owned();
        fairing
    }

    /// Set session database name
    ///
    /// Call on the fairing before attaching it.
    pub fn with_database(self, database: &str) -> (fairing: Self)
        ensures
            fairing.config_view() == (ConfigView { database: database@, ..self.config_view() }),
            fairing.poll_view() == self.poll_view(),
    {
        let mut fairing = self;
        proof {
            use_type_invariant(&fairing.config);
        }
        fairing.config.database = database.to_owned();
        fairing
    }

    /// Set session username
    ///
    /// Call on the fairing before attaching it.
    pub fn with_username(self, username: &str) -> (fairing: Self)
        ensures
            fairing.config_view() == (ConfigView { username: username@, ..self.config_view() }),
            fairing.poll_view() == self.poll_view(),
    {
        let mut fairing = self;
        proof {
            use_type_invariant(&fairing.config);
        }
        fairing.config.username = username.to_owned();
        fairing
    }

    /// Set session user password
    ///
    /// Call on the fairing before attaching it.
    pub fn with_password(self, password: &str) -> (fairing: Self)
        ensures
            fairing.config_view() == (ConfigView { password: password@, ..self.config_view() }),
            fairing.poll_view() == self.poll_view(),
    {
        let mut fairing = self;
        proof {
            use_type_invariant(&fairing.config);
        }
        fairing.config.password = password.to_owned();
        fairing
    }

    /// Set session database table name
    ///
    /// Call on the fairing before attaching it.
    pub fn with_table_name(self, table_name: &str) -> (fairing: Self)
        ensures
            fairing.config_view() == (ConfigView { table_name: table_name@, ..self.config_view() }),
            fairing.poll_view() == self.poll_view(),
    {
        let mut fairing = self;
        proof {
            use_type_invariant(&fairing.config);
        }
        fairing.config.table_name = table_name.to_owned();
        fairing
    }

    /// Set session database hostname
    ///
    /// Call on the fairing before attaching it.
    pub fn with_host(self, host: &str) -> (fairing: Self)
        ensures
            fairing.config_view() == (ConfigView { host: host@, ..self.config_view() }),
            fairing.poll_view() == self.poll_view(),
    {
        let mut fairing = self;
        proof {
            use_type_invariant(&fairing.config);
        }
        fairing.config.host = host.to_owned();
        fairing
    }

    /// Set session database port
    ///
    /// Call on the fairing before attaching it.
    pub fn with_port(self, port: u16) -> (fairing: Self)
        ensures
            fairing.config_view() == (ConfigView { port, ..self.config_view() }),
            fairing.poll_view() == self.poll_view(),
    {
        let mut fairing = self;
        proof {
            use_type_invariant(&fairing.config);
        }
        fairing.config.port = port;
        fairing
    }

    /// Set session database logging level
    ///
    /// Call on the fairing before attaching it.
    pub fn with_loglevel(self, level: LevelFilter) -> (fairing: Self)
        ensures
            fairing.config_view() == (ConfigView { log_level: level, ..self.config_view() }),
            fairing.poll_view() == self.poll_view(),
    {
        let mut fairing = self;
        proof {
            use_type_invariant(&fairing.config);
        }
        fairing.config.log_level = level;
        fairing
    }

    /// Set session database Poll Directly used for sharing Poll.
    ///
    /// Call on the fairing before attaching it.
    pub fn with_poll(self, poll: P) -> (fairing: Self)
        ensures
            fairing.config_view() == self.config_view(),
            fairing.poll_view() == Some(poll),
    {
        let mut fairing = self;
        fairing.poll = Some(poll);
        fairing
    }
}

}
