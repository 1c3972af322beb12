pub mod app;
pub mod clock;
pub mod control;
pub mod data;
pub mod engine;
pub mod error;
pub mod event;
pub mod impls;
pub mod key;
pub mod machine;
pub mod path;
pub mod pointer;
pub mod recording;
pub mod replay;
pub mod script;
pub mod signal;
pub mod statement;
pub mod text;
pub mod transition;

pub use app::App;
pub use clock::{clean_instant, init_instant, instant_elapse_millis, SessionAnchor};
pub use control::{Command, Decision, HotKey, LoopTimes, Player, State};
pub use data::{events_to_data, generate_script_filename, generate_script_filepath, Data};
pub use engine::{bind_keys, run, run_outcome, simulate_event_data};
pub use error::{GrabError, ListenError, SimulateError};
pub use event::{Event, RawEvent};
pub use impls::{TraitInto, TraitReverseInto};
pub use key::{Button, Key};
pub use path::virtual_path;
pub use pointer::{Occurrence, Pointer};
pub use script::{Platform, Step};
pub use signal::{simulate_state_send, StopSignal};
pub use statement::Call;
