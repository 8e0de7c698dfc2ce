//! Request/reply rendezvous between tasks: many askers put questions on one
//! bounded queue, a single responder takes them in order and sends back one
//! answer per question over a private one-shot channel.
pub mod enquiry;
pub mod timer;
