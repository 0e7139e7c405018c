//! Data model of a market viewer that fetches K-line (candlestick) data over a
//! TCP feed: the request handed to the fetch worker and the application's error
//! type, whose user-facing message is computed and verified here.

pub mod model;
