//! Reservation service core: domain types, validation and normalization, SQL
//! generation for the time-range query and the cursor-paginated filter, cursor
//! pagination, and the translation of errors for the RPC layer.

mod config;
mod error;
mod filter;
pub mod laws;
mod manager;
pub mod pager;
mod query;
mod request;
mod reservation;
mod sql;
mod status;
mod stream;
mod text;
mod time;
mod traits;

pub use config::{default_max_connections, Config, DbConfig, ServerConfig};
pub use error::{
    DbFailure, Error, ReservationConflict, ReservationWindow, RpcCode, RpcStatus,
};
pub use filter::{FilterPager, ReservationFilter, ReservationFilterBuilder};
pub use manager::{
    filter_page, filter_plan, query_plan, reserve_plan, string_to_opt, QueryParams, ReserveParams,
};
pub use pager::{Id, PageInfo, Pager, Paginator};
pub use query::{ReservationQuery, ReservationQueryBuilder};
pub use request::{
    CancelRequest, ConfirmRequest, FilterRequest, GetRequest, QueryRequest, ReserveRequest,
    UpdateRequest,
};
pub use reservation::Reservation;
pub use sql::get_user_resource_cond;
pub use status::{ReservationStatus, RsvpStatus};
pub use stream::{forward_event, to_rpc_item, RowEvent};
pub use text::int_to_string;
pub use time::{get_time_string, get_timespan, validate_range, Timespan, Timestamp};
pub use traits::{Normalize, ReservationId, ToSql, Validator};
