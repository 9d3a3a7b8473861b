pub mod chat_view;
pub mod model_select;

pub use chat_view::ChatView;
pub use model_select::ModelSelect;
