//! Client configuration.

use std::time::Duration;
use tokio_tungstenite::tungstenite::protocol::WebSocketConfig;
use vstd::prelude::*;

verus! {

/// The settings that a [`Config`] or a [`ConfigBuilder`] holds.
pub struct Settings {
    pub ws_config: Option<WebSocketConfig>,
    pub connect_timeout: Duration,
    pub close_timeout: Duration,
    pub channel_size: usize,
    pub disable_nagle: bool,
}

impl Settings {
    /// The settings of a client that was not configured: the socket's own
    /// defaults, ten seconds to connect and to close, room for 32 messages in
    /// each direction, and Nagle's algorithm left on.
    pub open spec fn defaults() -> Settings {
        Settings {
            ws_config: None,
            connect_timeout: crate::trusted::duration_of_secs(10),
            close_timeout: crate::trusted::duration_of_secs(10),
            channel_size: 32,
            disable_nagle: false,
        }
    }
}

/// Collects settings and builds a [`Config`] from them.
#[derive(Debug, Clone, Copy)]
pub struct ConfigBuilder {
    ws_config: Option<WebSocketConfig>,
    connect_timeout: Duration,
    close_timeout: Duration,
    channel_size: usize,
    disable_nagle: bool,
}

impl View for ConfigBuilder {
    type V = Settings;

    closed spec fn view(&self) -> Settings {
        Settings {
            ws_config: self.ws_config,
            connect_timeout: self.connect_timeout,
            close_timeout: self.close_timeout,
            channel_size: self.channel_size,
            disable_nagle: self.disable_nagle,
        }
    }
}

impl ConfigBuilder {
    /// A builder that holds the default settings.
    pub fn new() -> (builder: Self)
        ensures
            builder@ == Settings::defaults(),
            builder@.ws_config is None,
            builder@.connect_timeout == crate::trusted::duration_of_secs(10),
            builder@.close_timeout == crate::trusted::duration_of_secs(10),
            builder@.channel_size == 32,
            !builder@.disable_nagle,
    {
        Self::default()
    }

    /// Sets how the WebSocket itself is configured.
    pub fn ws_config(&mut self, config: WebSocketConfig) -> (builder: &mut Self)
        ensures
            builder@ == (Settings { ws_config: Some(config), ..old(self)@ }),
            *final(self) == *final(builder),
    {
        self.ws_config = Some(config);
        self
    }

    /// Sets how long an attempt to connect may take.
    pub fn connect_timeout(&mut self, timeout: Duration) -> (builder: &mut Self)
        ensures
            builder@ == (Settings { connect_timeout: timeout, ..old(self)@ }),
            *final(self) == *final(builder),
    {
        self.connect_timeout = timeout;
        self
    }

    /// Sets how long closing a connection may take.
    pub fn close_timeout(&mut self, timeout: Duration) -> (builder: &mut Self)
        ensures
            builder@ == (Settings { close_timeout: timeout, ..old(self)@ }),
            *final(self) == *final(builder),
    {
        self.close_timeout = timeout;
        self
    }

    /// Sets how many messages wait between the client and the application, in
    /// each direction, before the sender has to wait.
    pub fn channel_size(&mut self, size: usize) -> (builder: &mut Self)
        ensures
            builder@ == (Settings { channel_size: size, ..old(self)@ }),
            *final(self) == *final(builder),
    {
        self.channel_size = size;
        self
    }

    /// Sets whether Nagle's algorithm is turned off.
    pub fn disable_nagle(&mut self, disable_nagle: bool) -> (builder: &mut Self)
        ensures
            builder@ == (Settings { disable_nagle, ..old(self)@ }),
            *final(self) == *final(builder),
    {
        self.disable_nagle = disable_nagle;
        self
    }

    /// A configuration with the settings collected so far.
    pub fn build(&self) -> (config: Config)
        ensures
            config@ == self@,
    {
        Config {
            ws_config: self.ws_config,
            connect_timeout: self.connect_timeout,
            close_timeout: self.close_timeout,
            channel_size: self.channel_size,
            disable_nagle: self.disable_nagle,
        }
    }
}

impl Default for ConfigBuilder {
    fn default() -> (builder: Self)
        ensures
            builder@ == Settings::defaults(),
            builder@.ws_config is None,
            builder@.connect_timeout == crate::trusted::duration_of_secs(10),
            builder@.close_timeout == crate::trusted::duration_of_secs(10),
            builder@.channel_size == 32,
            !builder@.disable_nagle,
    {
        Self {
            ws_config: None,
            connect_timeout: Duration::from_secs(10),
            close_timeout: Duration::from_secs(10),
            channel_size: 32,
            disable_nagle: false,
        }
    }
}

/// WebSocket client configuration.
#[derive(Debug, Clone, Copy)]
pub struct Config {
    ws_config: Option<WebSocketConfig>,
    connect_timeout: Duration,
    close_timeout: Duration,
    channel_size: usize,
    disable_nagle: bool,
}

impl View for Config {
    type V = Settings;

    closed spec fn view(&self) -> Settings {
        Settings {
            ws_config: self.ws_config,
            connect_timeout: self.connect_timeout,
            close_timeout: self.close_timeout,
            channel_size: self.channel_size,
            disable_nagle: self.disable_nagle,
        }
    }
}

impl Config {
    /// How the WebSocket itself is configured; `None` leaves it at its
    /// defaults.
    pub fn ws_config(&self) -> (ws_config: Option<WebSocketConfig>)
        ensures
            ws_config == self@.ws_config,
    {
        self.ws_config
    }

    /// How long an attempt to connect may take.
    pub fn connect_timeout(&self) -> (timeout: Duration)
        ensures
            timeout == self@.connect_timeout,
    {
        self.connect_timeout
    }

    /// How long closing a connection may take.
    pub fn close_timeout(&self) -> (timeout: Duration)
        ensures
            timeout == self@.close_timeout,
    {
        self.close_timeout
    }

    /// How many messages wait between the client and the application, in each
    /// direction, before the sender has to wait.
    pub fn channel_size(&self) -> (size: usize)
        ensures
            size == self@.channel_size,
    {
        self.channel_size
    }

    /// Whether Nagle's algorithm is turned off.
    pub fn disable_nagle(&self) -> (disable_nagle: bool)
        ensures
            disable_nagle == self@.disable_nagle,
    {
        self.disable_nagle
    }
}

impl Default for Config {
    fn default() -> (config: Self)
        ensures
            config@ == Settings::defaults(),
            config@.ws_config is None,
            config@.connect_timeout == crate::trusted::duration_of_secs(10),
            config@.close_timeout == crate::trusted::duration_of_secs(10),
            config@.channel_size == 32,
            !config@.disable_nagle,
    {
        Self {
            ws_config: None,
            connect_timeout: Duration::from_secs(10),
            close_timeout: Duration::from_secs(10),
            channel_size: 32,
            disable_nagle: false,
        }
    }
}

} // verus!
