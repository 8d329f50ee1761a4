//! The plain shapes that travel between the engine and its collaborators:
//! commands, responses, and the payloads they carry. The transport that
//! moves them (and the serialization layer) lives outside the engine.

use vstd::prelude::*;

use crate::pricing::Pricing;
use crate::strategy::StrategyType;
use crate::time_frame::TimeFrameType;

verus! {

#[derive(Debug, Clone, Copy, PartialEq, Eq, Structural)]
pub enum CommandType {
    InitSession,
    GetCurrentState,
    GetInstrumentData,
    GetInstrumentPricing,
    UpdateBotData,
    ExecuteTrade,
    ExecutePosition,
    SubscribeStream,
}

#[derive(Debug, Clone)]
pub struct Command<T> {
    pub command: CommandType,
    pub data: Option<T>,
}

#[derive(Debug, Clone, Copy, PartialEq, Eq, Structural)]
pub enum ResponseType {
    Connected,
    Error,
    GetInstrumentData,
    GetInstrumentPricing,
    ExecuteTradeIn,
    ExecuteTradeOut,
    InitSession,
    SubscribeStream,
}

#[derive(Debug, Clone)]
pub struct ResponseBody<T> {
    pub response: ResponseType,
    pub payload: Option<T>,
}

#[derive(Debug, Clone)]
pub struct Payload<'a> {
    pub symbol: &'a str,
    pub strategy: &'a str,
    pub strategy_type: StrategyType,
    pub time_frame: TimeFrameType,
}

#[derive(Debug, Clone)]
pub struct InstrumentDataPayload<'a> {
    pub symbol: &'a str,
    pub strategy: &'a str,
    pub num_bars: i64,
    pub strategy_type: StrategyType,
    pub time_frame: TimeFrameType,
}

#[derive(Debug, Clone)]
pub struct InstrumentData<T> {
    pub symbol: String,
    pub time_frame: TimeFrameType,
    pub data: T,
}

#[derive(Debug, Clone)]
pub struct TradeData<T> {
    pub symbol: String,
    pub data: T,
}

/// A broker's answer to a trade or order execution: the affected symbol,
/// whether the execution was accepted, and the resulting record.
#[derive(Debug, Clone)]
pub struct TradeResponse<T> {
    pub symbol: String,
    pub accepted: bool,
    pub data: T,
}

#[derive(Debug, Clone)]
pub struct PricingData {
    pub symbol: String,
    pub data: Pricing,
}

} // verus!
