pub mod subscribe_irc;
