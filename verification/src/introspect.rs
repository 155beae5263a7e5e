//! The introspection documents: the reflection protocol's companion
//! capability. Each addressable object can produce an XML document
//! enumerating its path, its supported interfaces, and the path
//! segments of its direct children.

use vstd::prelude::*;
use vstd::string::StringSliceAdditionalSpecFns;
use crate::advertisement::Advertisement;
use crate::characteristic::{LocalCharBase, LocalDescBase, WriteCallback};
use crate::path::{last_segment, last_segment_spec};
use crate::value::ValueSource;

verus! {

/// The document preamble up to the node's name.
pub open spec fn doctype_spec() -> Seq<u8> {
    "<!DOCTYPE node PUBLIC \"-//freedesktop//DTD D-BUS Object Introspection 1.0//EN\" \"http://www.freedesktop.org/standards/dbus/1.0/introspect.dtd\">\n<node name=\"".spec_bytes()
}

/// Closes the node's name attribute.
pub open spec fn name_close_spec() -> Seq<u8> {
    "\">\n".spec_bytes()
}

/// The properties interface declaration.
pub open spec fn props_if_decl_spec() -> Seq<u8> {
    "<interface name=\"org.freedesktop.DBus.Properties\"><method name=\"Get\"/><method name=\"Set\"/><method name=\"GetAll\"/></interface>\n".spec_bytes()
}

/// The characteristic interface declaration.
pub open spec fn char_if_decl_spec() -> Seq<u8> {
    "<interface name=\"org.bluez.GattCharacteristic1\"><method name=\"ReadValue\"/><method name=\"WriteValue\"/><method name=\"AcquireWrite\"/><method name=\"AcquireNotify\"/><method name=\"StartNotify\"/><method name=\"StopNotify\"/><method name=\"Confirm\"/></interface>\n".spec_bytes()
}

/// The advertisement interface declaration.
pub open spec fn adv_if_decl_spec() -> Seq<u8> {
    "<interface name=\"org.bluez.LEAdvertisement1\"><method name=\"Release\"/></interface>\n".spec_bytes()
}

/// Opens one child node entry.
pub open spec fn child_open_spec() -> Seq<u8> {
    "<node name=\"".spec_bytes()
}

/// Closes one child node entry.
pub open spec fn child_close_spec() -> Seq<u8> {
    "\"/>\n".spec_bytes()
}

/// The document's closing tag.
pub open spec fn node_end_spec() -> Seq<u8> {
    "</node>".spec_bytes()
}

/// One child node entry for each descriptor, carrying the final
/// segment of the child's path, in table order.
pub open spec fn child_nodes_spec(entries: Seq<(String, LocalDescBase)>) -> Seq<u8>
    decreases entries.len(),
{
    if entries.len() == 0 {
        Seq::empty()
    } else {
        child_nodes_spec(entries.drop_last()) + child_open_spec() + last_segment_spec(
            entries.last().1.path@,
        ) + child_close_spec()
    }
}

/// A characteristic's whole introspection document.
pub open spec fn char_doc_spec<G: ValueSource, CB: WriteCallback<G>>(
    c: LocalCharBase<G, CB>,
) -> Seq<u8> {
    doctype_spec() + c.path@ + name_close_spec() + props_if_decl_spec() + char_if_decl_spec()
        + child_nodes_spec(c.descs.entry_seq()) + node_end_spec()
}

/// An advertisement's whole introspection document.
pub open spec fn adv_doc_spec(ad: Advertisement) -> Seq<u8> {
    doctype_spec() + ad.path@ + name_close_spec() + props_if_decl_spec() + adv_if_decl_spec()
        + node_end_spec()
}

impl<G: ValueSource, CB: WriteCallback<G>> LocalCharBase<G, CB> {
    /// Produces the introspection document for this characteristic:
    /// its path, the properties and characteristic interfaces, and one
    /// child node per descriptor.
    #[verifier::loop_isolation(false)]
    pub fn introspect(&self) -> (r: Vec<u8>)
        ensures
            r@ == char_doc_spec(*self),
    {
        let mut r: Vec<u8> = Vec::new();
        r.extend_from_slice(
            "<!DOCTYPE node PUBLIC \"-//freedesktop//DTD D-BUS Object Introspection 1.0//EN\" \"http://www.freedesktop.org/standards/dbus/1.0/introspect.dtd\">\n<node name=\"".as_bytes(),
        );
        proof {
            assert(r@ =~= doctype_spec());
        }
        r.extend_from_slice(self.path.as_slice());
        r.extend_from_slice("\">\n".as_bytes());
        r.extend_from_slice(
            "<interface name=\"org.freedesktop.DBus.Properties\"><method name=\"Get\"/><method name=\"Set\"/><method name=\"GetAll\"/></interface>\n".as_bytes(),
        );
        r.extend_from_slice(
            "<interface name=\"org.bluez.GattCharacteristic1\"><method name=\"ReadValue\"/><method name=\"WriteValue\"/><method name=\"AcquireWrite\"/><method name=\"AcquireNotify\"/><method name=\"StartNotify\"/><method name=\"StopNotify\"/><method name=\"Confirm\"/></interface>\n".as_bytes(),
        );
        let ghost prefix = r@;
        let n = self.descs.len();
        let mut i: usize = 0;
        proof {
            assert(self.descs.entry_seq().take(0) =~= Seq::<(String, LocalDescBase)>::empty());
            assert(r@ =~= prefix + child_nodes_spec(self.descs.entry_seq().take(0)));
        }
        while i < n
            invariant
                i <= n,
                n == self.descs.entry_seq().len(),
                r@ == prefix + child_nodes_spec(self.descs.entry_seq().take(i as int)),
            decreases n - i,
        {
            r.extend_from_slice("<node name=\"".as_bytes());
            let seg = last_segment(self.descs.value_at(i).path.as_slice());
            r.extend_from_slice(seg.as_slice());
            r.extend_from_slice("\"/>\n".as_bytes());
            proof {
                let es = self.descs.entry_seq();
                assert(es.take(i as int + 1).drop_last() =~= es.take(i as int));
                assert(es.take(i as int + 1).last() == es[i as int]);
                assert(r@ =~= prefix + child_nodes_spec(es.take(i as int + 1)));
            }
            i = i + 1;
        }
        proof {
            assert(self.descs.entry_seq().take(n as int) =~= self.descs.entry_seq());
        }
        r.extend_from_slice("</node>".as_bytes());
        proof {
            assert(r@ =~= char_doc_spec(*self));
        }
        r
    }
}

impl Advertisement {
    /// Produces the introspection document for this advertisement: its
    /// path and the properties and advertisement interfaces; it has no
    /// children.
    pub fn introspect(&self) -> (r: Vec<u8>)
        ensures
            r@ == adv_doc_spec(*self),
    {
        let mut r: Vec<u8> = Vec::new();
        r.extend_from_slice(
            "<!DOCTYPE node PUBLIC \"-//freedesktop//DTD D-BUS Object Introspection 1.0//EN\" \"http://www.freedesktop.org/standards/dbus/1.0/introspect.dtd\">\n<node name=\"".as_bytes(),
        );
        proof {
            assert(r@ =~= doctype_spec());
        }
        r.extend_from_slice(self.path.as_slice());
        r.extend_from_slice("\">\n".as_bytes());
        r.extend_from_slice(
            "<interface name=\"org.freedesktop.DBus.Properties\"><method name=\"Get\"/><method name=\"Set\"/><method name=\"GetAll\"/></interface>\n".as_bytes(),
        );
        r.extend_from_slice(
            "<interface name=\"org.bluez.LEAdvertisement1\"><method name=\"Release\"/></interface>\n".as_bytes(),
        );
        r.extend_from_slice("</node>".as_bytes());
        proof {
            assert(r@ =~= adv_doc_spec(*self));
        }
        r
    }
}

} // verus!
