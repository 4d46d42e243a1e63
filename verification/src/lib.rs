//! Streaming, path-driven extraction of an electronic invoice.
//!
//! An invoice document arrives as a stream of structural events: elements
//! open and close, text stands between them, and the document ends. The
//! extraction walks the stream once. It keeps the path from the document
//! root to the current element, looks every opened element up in a table of
//! the paths of interest, and stores the text of those that the table knows
//! in the field of the [`XmlData`] record that the table binds them to.
//!
//! The parts, leaf first:
//!
//! - [`text`]: trimming and comparing text;
//! - [`error`]: the errors that end an extraction;
//! - [`event`]: the events, and the [`EventStream`] that yields them;
//! - [`model`]: the record, and the view that contracts speak of;
//! - [`outcome`]: how a traversal of events ends;
//! - [`path`]: the path stack;
//! - [`bindings`]: the field binding table;
//! - [`store`]: the cursors of the repeated groups, and storing a text;
//! - [`skip`]: the region skipper, which passes over the extension block
//!   that leads an invoice;
//! - [`dispatch`]: the event dispatcher, and the extraction as a whole;
//! - [`laws`]: what holds of every extraction.
//!
//! Every function has a contract over the views of its arguments, and every
//! traversal of events is defined as a function on sequences of events, so
//! that an extraction is a function of the document: either the whole
//! record, or the one error that ended the run.

pub mod bindings;
pub mod dispatch;
pub mod error;
pub mod event;
pub mod laws;
pub mod model;
pub mod outcome;
pub mod path;
pub mod skip;
pub mod store;
pub mod text;

pub use bindings::{lookup, Action, Field, Section};
pub use dispatch::{extract, extract_document, find_attribute, main_logic, read_string};
pub use error::{EventKind, ExtractError};
pub use event::{Attribute, Event, EventStream, QName};
pub use model::{
    AccountingCustomerParty, AccountingSupplierParty, ClassifiedTaxCategory, InvoiceLine, Item,
    LegalMonetaryTotal, PayeeFinancialAccount, PaymentMeans, PostalAddress, Price, XmlData,
};
pub use path::to_prefixed_name;
pub use skip::{move_to_element_w_prefix, skip_subtree, skip_ubl_extensions};
pub use store::apply;
