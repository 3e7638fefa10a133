//! The metrics writer: owns the handle of the database client and says, for
//! each reading, what is to be sent.
//!
//! The writer has two states, disconnected and connected. It makes a handle
//! when it first needs one and keeps it until `disconnect`. Sending is the
//! caller's part: it takes the point and the handle, sends, and closes the
//! cycle with `cycle_finished`, which gives the handle up after a failure so
//! that the next write makes a fresh one.

use vstd::prelude::*;
use influxdb2::{BuildError, Client};
use crate::aqi::{compute_aqi, overall_index};
use crate::client::{build_client, made_from, url_is_valid, url_parses};
use crate::point::{build_point, output_point, OutputPoint, PointView};
use crate::reading::AirGradientData;
use crate::settings::{InfluxSettings, SettingsView};
use crate::tags::distinct_keys;

verus! {

/// The state of the writer.
#[derive(Debug)]
pub enum Connection {
    Disconnected,
    Connected(Client),
}

/// Why no handle could be made.
#[derive(Debug)]
pub enum ConnectError {
    /// The configured URL does not parse.
    InvalidUrl,
    /// The client could not set itself up.
    Build(BuildError),
}

/// What the caller does after `write_point`.
#[derive(Debug)]
pub enum WriteAction {
    /// Nothing: writing is disabled.
    Skip,
    /// Send `point` to the configured bucket, through the writer's handle.
    Send { point: OutputPoint },
}

/// Whether `connect` has to make a handle: writing is enabled and none is
/// held.
pub open spec fn needs_client(enable: bool, conn: Connection) -> bool {
    enable && conn is Disconnected
}

/// The state after a freshly made handle, or the failure to make one, is
/// taken in: a writer that holds a handle keeps it, a disconnected one takes
/// the new handle or stays disconnected with the error.
pub open spec fn adopt_step(conn: Connection, built: Result<Client, BuildError>) -> (
    Connection,
    Result<(), ConnectError>,
) {
    match conn {
        Connection::Connected(_) => (conn, Ok(())),
        Connection::Disconnected => match built {
            Ok(c) => (Connection::Connected(c), Ok(())),
            Err(e) => (conn, Err(ConnectError::Build(e))),
        },
    }
}

/// The state after `connect` and its result, where `url_ok` says whether the
/// configured URL parses and `built` is what the client made of it.
pub open spec fn connect_step(
    enable: bool,
    conn: Connection,
    url_ok: bool,
    built: Result<Client, BuildError>,
) -> (Connection, Result<(), ConnectError>) {
    if !needs_client(enable, conn) {
        (conn, Ok(()))
    } else if !url_ok {
        (conn, Err(ConnectError::InvalidUrl))
    } else {
        adopt_step(conn, built)
    }
}

/// What the client may hand back for a configuration: a failure, or a handle
/// made from the configured URL, organization and token.
pub open spec fn built_from(built: Result<Client, BuildError>, cfg: SettingsView) -> bool {
    match built {
        Ok(c) => made_from(c, cfg.url, cfg.org, cfg.token),
        Err(_) => true,
    }
}

/// `connect` went from `before` to `after` with `result`: that is what
/// `connect_step` gives for something that the client may have handed back
/// for the configuration.
pub open spec fn connect_outcome(
    cfg: SettingsView,
    before: Connection,
    after: Connection,
    result: Result<(), ConnectError>,
) -> bool {
    exists|built: Result<Client, BuildError>|
        built_from(built, cfg) && #[trigger] connect_step(
            cfg.enable,
            before,
            url_parses(cfg.url),
            built,
        ) == (after, result)
}

/// The writer holds a handle made from the configuration, where it holds
/// one at all.
pub open spec fn handle_from(conn: Connection, cfg: SettingsView) -> bool {
    match conn {
        Connection::Connected(c) => made_from(c, cfg.url, cfg.org, cfg.token),
        Connection::Disconnected => true,
    }
}

/// The state after `disconnect`.
pub open spec fn disconnect_step(conn: Connection) -> Connection {
    Connection::Disconnected
}

/// The state after a cycle of the poll loop: a failed cycle gives the handle
/// up, a good one keeps the state.
pub open spec fn cycle_step(conn: Connection, failed: bool) -> Connection {
    if failed {
        disconnect_step(conn)
    } else {
        conn
    }
}

/// What `write_point` returns after `connect` has returned `connected`: the
/// error of a failed connect, nothing to do for a disabled writer, and
/// otherwise the point to send.
pub open spec fn write_result_matches(
    result: Result<WriteAction, ConnectError>,
    enable: bool,
    connected: Result<(), ConnectError>,
    expected: PointView,
) -> bool {
    match connected {
        Err(e) => result == Err::<WriteAction, ConnectError>(e),
        Ok(_) => match result {
            Ok(WriteAction::Skip) => !enable,
            Ok(WriteAction::Send { point }) => enable && point@ == expected && distinct_keys(
                point@.tags,
            ),
            Err(_) => false,
        },
    }
}

/// `write_point` went from `before` to `after` with `result`: `connect` ran
/// first, and the result is what belongs to its outcome.
pub open spec fn write_outcome(
    cfg: SettingsView,
    before: Connection,
    after: Connection,
    result: Result<WriteAction, ConnectError>,
    expected: PointView,
) -> bool {
    exists|connected: Result<(), ConnectError>|
        #[trigger] connect_outcome(cfg, before, after, connected) && write_result_matches(
            result,
            cfg.enable,
            connected,
            expected,
        )
}

/// A disabled writer is inert: `connect` succeeds, makes no handle and
/// leaves the state as it is, whatever the URL and the client would do.
pub proof fn lemma_disabled_is_inert(
    conn: Connection,
    url_ok: bool,
    built: Result<Client, BuildError>,
)
    ensures
        !needs_client(false, conn),
        connect_step(false, conn, url_ok, built) == (conn, Ok::<(), ConnectError>(())),
{
}

/// `connect` is idempotent: after a `connect` that succeeded, a second one
/// succeeds and keeps the state, whatever the client would make then, so no
/// second handle is made.
pub proof fn lemma_connect_idempotent(
    enable: bool,
    conn: Connection,
    url_ok: bool,
    first: Result<Client, BuildError>,
    second: Result<Client, BuildError>,
)
    requires
        connect_step(enable, conn, url_ok, first).1 is Ok,
    ensures
        !needs_client(enable, connect_step(enable, conn, url_ok, first).0),
        connect_step(enable, connect_step(enable, conn, url_ok, first).0, url_ok, second) == (
            connect_step(enable, conn, url_ok, first).0,
            Ok::<(), ConnectError>(()),
        ),
{
}

/// After `disconnect`, and after a failed cycle, an enabled writer has to
/// make a handle again, and takes the one that the client makes.
pub proof fn lemma_reconnect_after_disconnect(conn: Connection, fresh: Client)
    ensures
        disconnect_step(conn) is Disconnected,
        cycle_step(conn, true) is Disconnected,
        needs_client(true, disconnect_step(conn)),
        connect_step(true, disconnect_step(conn), true, Ok(fresh)) == (
            Connection::Connected(fresh),
            Ok::<(), ConnectError>(()),
        ),
{
}

/// A failed `connect` leaves the writer disconnected, and a successful one
/// of an enabled writer leaves it connected: a point is only ever sent
/// through a handle that is there.
pub proof fn lemma_connected_after_success(
    enable: bool,
    conn: Connection,
    url_ok: bool,
    built: Result<Client, BuildError>,
)
    ensures
        connect_step(enable, conn, url_ok, built).1 is Ok && enable ==> connect_step(
            enable,
            conn,
            url_ok,
            built,
        ).0 is Connected,
        connect_step(enable, conn, url_ok, built).1 is Err ==> connect_step(
            enable,
            conn,
            url_ok,
            built,
        ).0 is Disconnected,
{
}

/// A handle that `connect` makes is made from the configuration: whenever a
/// writer that needed a handle has connected, first or after a `disconnect`,
/// the handle it holds is one for the configured URL, organization and
/// token, and it holds one exactly when `connect` succeeded.
pub proof fn lemma_fresh_handle_from_configuration(
    cfg: SettingsView,
    before: Connection,
    after: Connection,
    result: Result<(), ConnectError>,
)
    requires
        needs_client(cfg.enable, before),
        connect_outcome(cfg, before, after, result),
    ensures
        handle_from(after, cfg),
        result is Ok <==> after is Connected,
        needs_client(cfg.enable, disconnect_step(after)),
{
}

/// The metrics writer.
#[derive(Debug)]
pub struct Influx {
    cfg: InfluxSettings,
    conn: Connection,
}

impl Influx {
    /// The configuration, as plain values.
    pub closed spec fn settings_view(&self) -> SettingsView {
        self.cfg@
    }

    /// The state.
    pub closed spec fn connection(&self) -> Connection {
        self.conn
    }

    /// A writer with a copy of `cfg`, disconnected.
    pub fn new(cfg: &InfluxSettings) -> (influx: Self)
        ensures
            influx.settings_view() == cfg@,
            influx.connection() is Disconnected,
    {
        Influx { cfg: cfg.clone(), conn: Connection::Disconnected }
    }

    /// The configuration.
    pub fn settings(&self) -> (cfg: &InfluxSettings)
        ensures
            cfg@ == self.settings_view(),
    {
        &self.cfg
    }

    /// Whether a handle is held.
    pub fn is_connected(&self) -> (connected: bool)
        ensures
            connected == (self.connection() is Connected),
    {
        match &self.conn {
            Connection::Connected(_) => true,
            Connection::Disconnected => false,
        }
    }

    /// The handle, where one is held.
    pub fn client(&self) -> (handle: Option<&Client>)
        ensures
            match handle {
                Some(c) => self.connection() == Connection::Connected(*c),
                None => self.connection() is Disconnected,
            },
    {
        match &self.conn {
            Connection::Connected(c) => Some(c),
            Connection::Disconnected => None,
        }
    }

    /// Takes in what the client made: a disconnected writer keeps a handle
    /// and becomes connected, or stays disconnected and returns the error; a
    /// connected writer keeps the handle it has.
    pub fn adopt(&mut self, built: Result<Client, BuildError>) -> (result: Result<
        (),
        ConnectError,
    >)
        ensures
            final(self).settings_view() == old(self).settings_view(),
            (final(self).connection(), result) == adopt_step(old(self).connection(), built),
    {
        match &self.conn {
            Connection::Connected(_) => Ok(()),
            Connection::Disconnected => match built {
                Ok(c) => {
                    self.conn = Connection::Connected(c);
                    Ok(())
                },
                Err(e) => Err(ConnectError::Build(e)),
            },
        }
    }

    /// Makes sure that a handle is there. Succeeds at once where writing is
    /// disabled or a handle is held. Otherwise the configured URL is parsed,
    /// and where it parses the client makes a handle from the URL, the
    /// organization and the token; no socket is opened by that.
    pub fn connect(&mut self) -> (result: Result<(), ConnectError>)
        ensures
            final(self).settings_view() == old(self).settings_view(),
            connect_outcome(
                old(self).settings_view(),
                old(self).connection(),
                final(self).connection(),
                result,
            ),
            !needs_client(old(self).settings_view().enable, old(self).connection()) ==> result
                is Ok && final(self).connection() == old(self).connection(),
            needs_client(old(self).settings_view().enable, old(self).connection())
                && !url_parses(old(self).settings_view().url) ==> (result matches Err(
                ConnectError::InvalidUrl,
            )),
            needs_client(old(self).settings_view().enable, old(self).connection())
                ==> handle_from(final(self).connection(), old(self).settings_view()),
            result is Ok && old(self).settings_view().enable ==> final(self).connection()
                is Connected,
            result is Err ==> final(self).connection() is Disconnected,
    {
        let ghost cfg = self.cfg@;
        let ghost before = self.conn;
        if !self.cfg.enable || self.is_connected() {
            proof {
                let none: Result<Client, BuildError> = Err(arbitrary());
                assert(connect_step(cfg.enable, before, url_parses(cfg.url), none) == (
                    self.conn,
                    Ok::<(), ConnectError>(()),
                ));
            }
            return Ok(());
        }
        if !url_is_valid(self.cfg.url.as_str()) {
            proof {
                let none: Result<Client, BuildError> = Err(arbitrary());
                assert(connect_step(cfg.enable, before, url_parses(cfg.url), none) == (
                    self.conn,
                    Err::<(), ConnectError>(ConnectError::InvalidUrl),
                ));
            }
            return Err(ConnectError::InvalidUrl);
        }
        let built = build_client(
            self.cfg.url.as_str(),
            self.cfg.org.as_str(),
            self.cfg.token.as_str(),
        );
        let ghost made = built;
        let result = self.adopt(built);
        assert(built_from(made, cfg));
        assert(connect_step(cfg.enable, before, url_parses(cfg.url), made) == (self.conn, result));
        result
    }

    /// Gives the handle up, whatever the state was.
    pub fn disconnect(&mut self)
        ensures
            final(self).settings_view() == old(self).settings_view(),
            final(self).connection() == disconnect_step(old(self).connection()),
    {
        self.conn = Connection::Disconnected;
    }

    /// Closes a cycle of the poll loop. Every failure is treated alike: it is
    /// reported by the caller and dropped, the handle is given up, and the
    /// loop goes on; a good cycle changes nothing.
    pub fn cycle_finished(&mut self, failed: bool)
        ensures
            final(self).settings_view() == old(self).settings_view(),
            final(self).connection() == cycle_step(old(self).connection(), failed),
    {
        if failed {
            self.disconnect();
        }
    }

    /// Prepares the write of one reading with its index, stamped with
    /// `timestamp` (nanoseconds since the epoch, taken by the caller at the
    /// time of writing). Where writing is disabled nothing is sent and
    /// nothing changes. Otherwise the writer connects if it has to; where
    /// that fails the error is returned, and where it succeeds the caller
    /// sends the point through the handle.
    pub fn write_point(&mut self, data: &AirGradientData, aqi: u32, timestamp: i64) -> (result:
        Result<WriteAction, ConnectError>)
        ensures
            final(self).settings_view() == old(self).settings_view(),
            write_outcome(
                old(self).settings_view(),
                old(self).connection(),
                final(self).connection(),
                result,
                output_point(data, aqi, old(self).settings_view().tags, timestamp),
            ),
            !needs_client(old(self).settings_view().enable, old(self).connection()) ==> result
                is Ok && final(self).connection() == old(self).connection(),
            needs_client(old(self).settings_view().enable, old(self).connection())
                && !url_parses(old(self).settings_view().url) ==> (result matches Err(
                ConnectError::InvalidUrl,
            )),
            needs_client(old(self).settings_view().enable, old(self).connection())
                ==> handle_from(final(self).connection(), old(self).settings_view()),
            result is Ok && old(self).settings_view().enable ==> final(self).connection()
                is Connected,
            result is Err ==> final(self).connection() is Disconnected,
    {
        let ghost cfg = self.cfg@;
        let ghost before = self.conn;
        let ghost expected = output_point(data, aqi, cfg.tags, timestamp);
        let connected = self.connect();
        let ghost outcome = connected;
        let result = match connected {
            Err(e) => Err(e),
            Ok(_) => {
                if self.cfg.enable {
                    Ok(WriteAction::Send { point: build_point(data, aqi, &self.cfg.tags, timestamp) })
                } else {
                    Ok(WriteAction::Skip)
                }
            },
        };
        assert(connect_outcome(cfg, before, self.conn, outcome));
        assert(write_result_matches(result, cfg.enable, outcome, expected));
        result
    }
}

/// One cycle of the poll loop, between the fetch and the send: derives the
/// index of the reading and prepares its write, stamped with `timestamp`.
/// The result is that of `write_point` for the overall index of the reading.
pub fn do_stuff(influx: &mut Influx, data: &AirGradientData, timestamp: i64) -> (result: Result<
    WriteAction,
    ConnectError,
>)
    ensures
        final(influx).settings_view() == old(influx).settings_view(),
        write_outcome(
            old(influx).settings_view(),
            old(influx).connection(),
            final(influx).connection(),
            result,
            output_point(
                data,
                overall_index(data.pm02, data.pm10) as u32,
                old(influx).settings_view().tags,
                timestamp,
            ),
        ),
        !needs_client(old(influx).settings_view().enable, old(influx).connection()) ==> result
            is Ok && final(influx).connection() == old(influx).connection(),
        needs_client(old(influx).settings_view().enable, old(influx).connection())
            ==> handle_from(final(influx).connection(), old(influx).settings_view()),
        result is Ok && old(influx).settings_view().enable ==> final(influx).connection()
            is Connected,
        result is Err ==> final(influx).connection() is Disconnected,
{
    let aqi = compute_aqi(data);
    influx.write_point(data, aqi, timestamp)
}

} // verus!
