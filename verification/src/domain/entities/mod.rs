pub mod webhook_event;
