//! The adapter layer's side of the tunnel boundary: the options of a database
//! connection, how they are pointed at the local end of a tunnel, and which
//! driver they select.

pub mod example;
pub mod mysql;
pub mod result;
pub mod rows;

use crate::credentials::{
    spec_loopback, LocalBinding, SshOpts, SshOptsView, TargetEndpoint, TargetEndpointView,
};
use crate::error::AppError;
use vstd::prelude::*;
use vstd::string::*;

verus! {

/// The database drivers that options can name.
#[derive(Clone, Copy, Debug, PartialEq, Eq, Structural)]
pub enum DriverType {
    MySQL,
    PostgreSQL,
    SQLite,
    MongoDB,
    /// No driver has been chosen.
    Unset,
}

impl Default for DriverType {
    fn default() -> (driver: Self)
        ensures
            driver == DriverType::Unset,
    {
        DriverType::Unset
    }
}

/// Connection parameters of a database as the front end supplies them.
#[derive(Debug, PartialEq, Eq)]
pub struct AdapterOpts {
    pub driver: DriverType,
    pub host: String,
    pub port: u32,
    pub user: String,
    pub password: String,
    pub filepath: String,
}

/// The mathematical value of an [`AdapterOpts`].
pub struct AdapterOptsView {
    pub driver: DriverType,
    pub host: Seq<char>,
    pub port: u32,
    pub user: Seq<char>,
    pub password: Seq<char>,
    pub filepath: Seq<char>,
}

impl View for AdapterOpts {
    type V = AdapterOptsView;

    open spec fn view(&self) -> AdapterOptsView {
        AdapterOptsView {
            driver: self.driver,
            host: self.host@,
            port: self.port,
            user: self.user@,
            password: self.password@,
            filepath: self.filepath@,
        }
    }
}

impl Clone for AdapterOpts {
    fn clone(&self) -> (copy: Self)
        ensures
            copy == *self,
    {
        AdapterOpts {
            driver: self.driver,
            host: self.host.clone(),
            port: self.port,
            user: self.user.clone(),
            password: self.password.clone(),
            filepath: self.filepath.clone(),
        }
    }
}

impl Default for AdapterOpts {
    fn default() -> (opts: Self)
        ensures
            opts@ == (AdapterOptsView {
                driver: DriverType::Unset,
                host: Seq::<char>::empty(),
                port: 0,
                user: Seq::<char>::empty(),
                password: Seq::<char>::empty(),
                filepath: Seq::<char>::empty(),
            }),
    {
        AdapterOpts {
            driver: DriverType::Unset,
            host: String::new(),
            port: 0,
            user: String::new(),
            password: String::new(),
            filepath: String::new(),
        }
    }
}

/// The options that reach the same database through a tunnel: the host and
/// port of the tunnel's local end in place of the database's own.
pub open spec fn spec_through_tunnel(opts: AdapterOptsView, binding: LocalBinding) -> AdapterOptsView {
    AdapterOptsView { host: spec_loopback(), port: binding.spec_port() as u32, ..opts }
}

/// Points the options at the local end of a tunnel. Driver, user, password
/// and file path stay as they are.
pub fn tunnel(adapter_opts: &AdapterOpts, binding: &LocalBinding) -> (through: AdapterOpts)
    ensures
        through@ == spec_through_tunnel(adapter_opts@, *binding),
        through@.port != 0,
{
    AdapterOpts {
        driver: adapter_opts.driver,
        host: binding.address(),
        port: binding.port() as u32,
        user: adapter_opts.user.clone(),
        password: adapter_opts.password.clone(),
        filepath: adapter_opts.filepath.clone(),
    }
}

/// The endpoint that a tunnel for these options forwards to: the database's
/// own host and port.
pub fn tunnel_target(adapter_opts: &AdapterOpts) -> (target: TargetEndpoint)
    ensures
        target@ == (TargetEndpointView { host: adapter_opts@.host, port: adapter_opts@.port }),
{
    TargetEndpoint { host: adapter_opts.host.clone(), port: adapter_opts.port }
}

/// What to do in order to connect an adapter.
#[derive(Debug, PartialEq, Eq)]
pub enum AdapterPlan {
    /// Open a tunnel to `target` through the jump host of `ssh_opts`, point
    /// `opts` at its local end with [`tunnel`], and connect with the result.
    OpenTunnel { ssh_opts: SshOpts, target: TargetEndpoint, opts: AdapterOpts },
    /// Connect the MySQL driver with these parameters.
    MySql { params: mysql::MySqlParams },
    /// Connect the SQLite driver to the database file at this path.
    Sqlite { filepath: String },
}

/// The mathematical value of an [`AdapterPlan`].
pub enum AdapterPlanView {
    OpenTunnel { ssh_opts: SshOptsView, target: TargetEndpointView, opts: AdapterOptsView },
    MySql { params: mysql::MySqlParamsView },
    Sqlite { filepath: Seq<char> },
}

impl View for AdapterPlan {
    type V = AdapterPlanView;

    open spec fn view(&self) -> AdapterPlanView {
        match self {
            AdapterPlan::OpenTunnel { ssh_opts, target, opts } => AdapterPlanView::OpenTunnel {
                ssh_opts: ssh_opts@,
                target: target@,
                opts: opts@,
            },
            AdapterPlan::MySql { params } => AdapterPlanView::MySql { params: params@ },
            AdapterPlan::Sqlite { filepath } => AdapterPlanView::Sqlite { filepath: filepath@ },
        }
    }
}

/// The message for options that name a driver without an adapter.
pub open spec fn spec_unknown_driver() -> Seq<char> {
    "Unable to connect: unknown driver!"@
}

/// The plan for connecting with `opts`, where there is one.
///
/// A jump host comes first, whatever the driver: with SSH options the plan
/// is to open the tunnel. Without them the driver decides, and only MySQL
/// and SQLite have an adapter.
pub open spec fn spec_connect_adapter(opts: AdapterOptsView, ssh_opts: Option<SshOptsView>) -> Option<
    AdapterPlanView,
> {
    match ssh_opts {
        Some(ssh_opts) => Some(
            AdapterPlanView::OpenTunnel {
                ssh_opts,
                target: TargetEndpointView { host: opts.host, port: opts.port },
                opts,
            },
        ),
        None => match opts.driver {
            DriverType::MySQL => Some(AdapterPlanView::MySql { params: mysql::spec_connect(opts) }),
            DriverType::SQLite => Some(AdapterPlanView::Sqlite { filepath: opts.filepath }),
            _ => None,
        },
    }
}

/// Decides how to connect an adapter for `opts`, through the jump host of
/// `ssh_opts` if there is one.
pub fn connect_adapter(opts: AdapterOpts, ssh_opts: Option<SshOpts>) -> (plan: Result<
    AdapterPlan,
    AppError,
>)
    ensures
        match spec_connect_adapter(
            opts@,
            match ssh_opts {
                Some(ssh) => Some(ssh@),
                None => None,
            },
        ) {
            Some(expected) => plan is Ok && plan->Ok_0@ == expected,
            None => plan is Err && plan->Err_0@ == spec_unknown_driver(),
        },
{
    match ssh_opts {
        Some(ssh_opts) => {
            let target = tunnel_target(&opts);
            Ok(AdapterPlan::OpenTunnel { ssh_opts, target, opts })
        },
        None => match opts.driver {
            DriverType::MySQL => Ok(AdapterPlan::MySql { params: mysql::connect(opts) }),
            DriverType::SQLite => Ok(AdapterPlan::Sqlite { filepath: opts.filepath }),
            _ => Err(AppError::from("Unable to connect: unknown driver!")),
        },
    }
}

/// Going through a tunnel changes where an adapter connects and nothing
/// else: the plan for the options pointed at the tunnel is the plan for the
/// options themselves, with the host and port of the tunnel's local end.
pub proof fn tunnel_keeps_driver(opts: AdapterOptsView, binding: LocalBinding)
    ensures
        spec_through_tunnel(opts, binding).driver == opts.driver,
        spec_connect_adapter(spec_through_tunnel(opts, binding), None) is Some
            == spec_connect_adapter(opts, None) is Some,
        opts.driver == DriverType::MySQL ==> spec_connect_adapter(
            spec_through_tunnel(opts, binding),
            None,
        ) == Some(
            AdapterPlanView::MySql {
                params: mysql::MySqlParamsView {
                    host: spec_loopback(),
                    port: binding.spec_port(),
                    ..mysql::spec_connect(opts)
                },
            },
        ),
{
}

} // verus!
