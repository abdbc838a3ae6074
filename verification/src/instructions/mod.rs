//! The operations, one per file. Each either succeeds and changes its
//! context as its `_outcome` function says, or fails and changes nothing.

pub use self::add_order::{add_order, add_order_outcome};
pub use self::buy_acdm::{buy_acdm, buy_acdm_outcome};
pub use self::end_ido::{end_gate, end_ido, end_ido_outcome};
pub use self::initialize::{initialize, initialized};
pub use self::redeem_order::{redeem_order, redeem_order_outcome};
pub use self::register_member::{register_member, register_member_outcome};
pub use self::remove_order::{remove_order, remove_order_outcome};
pub use self::start_sale_round::{
    sale_round_price, sale_start_gate, start_sale_round, start_sale_round_outcome,
};
pub use self::start_trade_round::{start_trade_round, start_trade_round_outcome, trade_start_gate};
pub use self::withdraw_ido_usdc::{withdraw_ido_usdc, withdraw_ido_usdc_outcome};

pub mod add_order;
pub mod buy_acdm;
pub mod end_ido;
pub mod initialize;
pub mod redeem_order;
pub mod register_member;
pub mod remove_order;
pub mod start_sale_round;
pub mod start_trade_round;
pub mod withdraw_ido_usdc;
