pub mod dispatcher;
