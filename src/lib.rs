//! Core of a desktop notification service: decoding of notification
//! requests, identifier allocation, the table of live notifications and
//! the bridge that turns commands and events into outbound signals.

mod bridge;
mod decode;
mod hints;
mod oshirase;
mod server;
mod types;

pub use bridge::{
    expiry_for, expiry_rule, lemma_expiry_by_urgency, plan_command, Command, Signal, Step,
    LOW_URGENCY_EXPIRY_MS, NORMAL_URGENCY_EXPIRY_MS,
};
pub use decode::{
    data_image, decodes_to, field_bool, field_bytes, field_i32, first_of, icon_image, image_data,
    image_path, lemma_icon_data_fallback, lemma_image_data_wins, lemma_odd_actions_truncated,
    pair_actions, paired, parse_data, path_image, pixel_data, pixel_record, present, residual,
    resolve_image, timeout_of, urgency_of, NotificationData, NotificationRequest,
};
pub use hints::{
    find, keys_distinct, lemma_find_without, lemma_find_without_same, lemma_without_distinct,
    lemma_without_members, without, HintValue, Hints,
};
pub use oshirase::{
    current, event_signal, lemma_close_signals_once, resource_of, Oshirase, Record,
};
pub use server::{
    allocation, counter_after, issued, lemma_counter_monotone, lemma_fresh_ids_increase,
    lemma_replacing_id_kept, NotificationServer,
};
pub use types::{reason_code, CloseReason, Event, Image, ImageData, Properties};
