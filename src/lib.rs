pub mod bar_laws;
pub mod component;
pub mod config;
pub mod group;
pub mod label;
pub mod manager;
pub mod progress_bar;
pub mod spinner;
pub mod text;
pub mod width;

pub use component::Component;
pub use config::{Config, ErrMsg};
pub use group::LabeledProgressBar;
pub use label::Label;
pub use manager::ProgressManager;
pub use progress_bar::{render_bar, ProgressBar, ProgressBarBuildError, ProgressBarBuilder};
pub use spinner::SpinnerComponent;
