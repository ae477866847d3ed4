//! The VM management feature interface: the operations any provider
//! claiming `vm-management` must implement, each described by a JSON
//! document.

use vstd::prelude::*;
use vstd::string::StringExecFns;
use crate::json::JsonMember;
use crate::json::JsonVal;
use crate::json::JsonValue;
use crate::vbox_utils::push_field;

verus! {

broadcast use
    vstd::std_specs::vec::group_vec_axioms,
    vstd::seq::group_seq_axioms,
    vstd::seq_lib::group_seq_lib_default;

/// The VM management feature interface.
pub struct VmManagementFeature;

/// A one-field schema object naming a type.
pub open spec fn spec_type_obj(t: Seq<char>) -> JsonVal {
    JsonVal::Obj(seq![("type"@, JsonVal::Str(t))])
}

/// The document describing the `list` operation.
pub open spec fn spec_list_operation() -> JsonVal {
    JsonVal::Obj(
        seq![
            ("description"@, JsonVal::Str("List all virtual machines"@)),
            ("name"@, JsonVal::Str("list"@)),
            ("parameters"@, JsonVal::Obj(Seq::empty())),
            (
                "returns"@,
                JsonVal::Obj(
                    seq![
                        (
                            "properties"@,
                            JsonVal::Obj(
                                seq![
                                    ("action"@, spec_type_obj("string"@)),
                                    ("count"@, spec_type_obj("number"@)),
                                    ("status"@, spec_type_obj("string"@)),
                                    (
                                        "vms"@,
                                        JsonVal::Obj(
                                            seq![
                                                ("items"@, spec_type_obj("string"@)),
                                                ("type"@, JsonVal::Str("array"@)),
                                            ],
                                        ),
                                    ),
                                ],
                            ),
                        ),
                        ("type"@, JsonVal::Str("object"@)),
                    ],
                ),
            ),
        ],
    )
}

/// The document describing the `create` operation.
pub open spec fn spec_create_operation() -> JsonVal {
    JsonVal::Obj(
        seq![
            ("description"@, JsonVal::Str("Create a new virtual machine"@)),
            ("name"@, JsonVal::Str("create"@)),
            (
                "parameters"@,
                JsonVal::Obj(
                    seq![
                        (
                            "name"@,
                            JsonVal::Obj(
                                seq![
                                    ("required"@, JsonVal::Bool(true)),
                                    ("type"@, JsonVal::Str("string"@)),
                                ],
                            ),
                        ),
                        (
                            "os_type"@,
                            JsonVal::Obj(
                                seq![
                                    ("default"@, JsonVal::Str("Ubuntu_64"@)),
                                    ("required"@, JsonVal::Bool(false)),
                                    ("type"@, JsonVal::Str("string"@)),
                                ],
                            ),
                        ),
                    ],
                ),
            ),
            (
                "returns"@,
                JsonVal::Obj(
                    seq![
                        (
                            "properties"@,
                            JsonVal::Obj(
                                seq![
                                    ("action"@, spec_type_obj("string"@)),
                                    ("os_type"@, spec_type_obj("string"@)),
                                    ("status"@, spec_type_obj("string"@)),
                                    ("vm_name"@, spec_type_obj("string"@)),
                                ],
                            ),
                        ),
                        ("type"@, JsonVal::Str("object"@)),
                    ],
                ),
            ),
        ],
    )
}

/// The document describing the `delete` operation.
pub open spec fn spec_delete_operation() -> JsonVal {
    JsonVal::Obj(
        seq![
            ("description"@, JsonVal::Str("Delete a virtual machine"@)),
            ("name"@, JsonVal::Str("delete"@)),
            (
                "parameters"@,
                JsonVal::Obj(
                    seq![
                        (
                            "name"@,
                            JsonVal::Obj(
                                seq![
                                    ("required"@, JsonVal::Bool(true)),
                                    ("type"@, JsonVal::Str("string"@)),
                                ],
                            ),
                        ),
                    ],
                ),
            ),
            (
                "returns"@,
                JsonVal::Obj(
                    seq![
                        (
                            "properties"@,
                            JsonVal::Obj(
                                seq![
                                    ("action"@, spec_type_obj("string"@)),
                                    ("status"@, spec_type_obj("string"@)),
                                    ("vm_name"@, spec_type_obj("string"@)),
                                ],
                            ),
                        ),
                        ("type"@, JsonVal::Str("object"@)),
                    ],
                ),
            ),
        ],
    )
}

/// Builds a one-field schema object naming a type.
fn type_obj(t: &str) -> (r: JsonValue)
    ensures
        r@ == spec_type_obj(t@),
{
    let mut fields: Vec<JsonMember> = Vec::new();
    push_field(&mut fields, "type", JsonValue::Str(t.to_owned()));
    let r = JsonValue::Obj(fields);
    proof {
        assert(r@->Obj_0 =~= spec_type_obj(t@)->Obj_0);
    }
    r
}

/// Builds an object value out of no fields.
fn empty_obj() -> (r: JsonValue)
    ensures
        r@ == JsonVal::Obj(Seq::empty()),
{
    let fields: Vec<JsonMember> = Vec::new();
    let r = JsonValue::Obj(fields);
    proof {
        assert(r@->Obj_0 =~= Seq::<(Seq<char>, JsonVal)>::empty());
    }
    r
}

impl VmManagementFeature {
    /// The `list` operation: no parameters; returns the listed VM
    /// names, their count, the action and a status.
    pub fn list_operation_spec() -> (r: JsonValue)
        ensures
            r@ == spec_list_operation(),
    {
        let mut vms_schema: Vec<JsonMember> = Vec::new();
        push_field(&mut vms_schema, "items", type_obj("string"));
        push_field(&mut vms_schema, "type", JsonValue::Str(String::from_str("array")));
        proof {
            assert(crate::json::obj_view(vms_schema@) =~= seq![
                ("items"@, spec_type_obj("string"@)),
                ("type"@, JsonVal::Str("array"@)),
            ]);
        }
        let mut props: Vec<JsonMember> = Vec::new();
        push_field(&mut props, "action", type_obj("string"));
        push_field(&mut props, "count", type_obj("number"));
        push_field(&mut props, "status", type_obj("string"));
        push_field(&mut props, "vms", JsonValue::Obj(vms_schema));
        proof {
            assert(crate::json::obj_view(props@) =~=
                spec_list_operation()->Obj_0[3].1->Obj_0[0].1->Obj_0);
        }
        let mut ret_schema: Vec<JsonMember> = Vec::new();
        push_field(&mut ret_schema, "properties", JsonValue::Obj(props));
        push_field(&mut ret_schema, "type", JsonValue::Str(String::from_str("object")));
        proof {
            assert(crate::json::obj_view(ret_schema@) =~= spec_list_operation()->Obj_0[3].1->Obj_0);
        }
        let mut doc: Vec<JsonMember> = Vec::new();
        push_field(
            &mut doc,
            "description",
            JsonValue::Str(String::from_str("List all virtual machines")),
        );
        push_field(&mut doc, "name", JsonValue::Str(String::from_str("list")));
        push_field(&mut doc, "parameters", empty_obj());
        push_field(&mut doc, "returns", JsonValue::Obj(ret_schema));
        let r = JsonValue::Obj(doc);
        proof {
            assert(r@->Obj_0 =~= spec_list_operation()->Obj_0);
        }
        r
    }

    /// The `create` operation: a required `name`, an optional
    /// `os_type` defaulting to `Ubuntu_64`; returns the action, the
    /// OS type, a status and the VM's name.
    pub fn create_operation_spec() -> (r: JsonValue)
        ensures
            r@ == spec_create_operation(),
    {
        let mut name_schema: Vec<JsonMember> = Vec::new();
        push_field(&mut name_schema, "required", JsonValue::Bool(true));
        push_field(&mut name_schema, "type", JsonValue::Str(String::from_str("string")));
        proof {
            assert(crate::json::obj_view(name_schema@) =~= seq![
                ("required"@, JsonVal::Bool(true)),
                ("type"@, JsonVal::Str("string"@)),
            ]);
        }
        let mut os_schema: Vec<JsonMember> = Vec::new();
        push_field(&mut os_schema, "default", JsonValue::Str(String::from_str("Ubuntu_64")));
        push_field(&mut os_schema, "required", JsonValue::Bool(false));
        push_field(&mut os_schema, "type", JsonValue::Str(String::from_str("string")));
        proof {
            assert(crate::json::obj_view(os_schema@) =~= seq![
                ("default"@, JsonVal::Str("Ubuntu_64"@)),
                ("required"@, JsonVal::Bool(false)),
                ("type"@, JsonVal::Str("string"@)),
            ]);
        }
        let mut params: Vec<JsonMember> = Vec::new();
        push_field(&mut params, "name", JsonValue::Obj(name_schema));
        push_field(&mut params, "os_type", JsonValue::Obj(os_schema));
        proof {
            assert(crate::json::obj_view(params@) =~= spec_create_operation()->Obj_0[2].1->Obj_0);
        }
        let mut props: Vec<JsonMember> = Vec::new();
        push_field(&mut props, "action", type_obj("string"));
        push_field(&mut props, "os_type", type_obj("string"));
        push_field(&mut props, "status", type_obj("string"));
        push_field(&mut props, "vm_name", type_obj("string"));
        proof {
            assert(crate::json::obj_view(props@) =~=
                spec_create_operation()->Obj_0[3].1->Obj_0[0].1->Obj_0);
        }
        let mut ret_schema: Vec<JsonMember> = Vec::new();
        push_field(&mut ret_schema, "properties", JsonValue::Obj(props));
        push_field(&mut ret_schema, "type", JsonValue::Str(String::from_str("object")));
        proof {
            assert(crate::json::obj_view(ret_schema@) =~= spec_create_operation()->Obj_0[3].1->Obj_0);
        }
        let mut doc: Vec<JsonMember> = Vec::new();
        push_field(
            &mut doc,
            "description",
            JsonValue::Str(String::from_str("Create a new virtual machine")),
        );
        push_field(&mut doc, "name", JsonValue::Str(String::from_str("create")));
        push_field(&mut doc, "parameters", JsonValue::Obj(params));
        push_field(&mut doc, "returns", JsonValue::Obj(ret_schema));
        let r = JsonValue::Obj(doc);
        proof {
            assert(r@->Obj_0 =~= spec_create_operation()->Obj_0);
        }
        r
    }

    /// The `delete` operation: a required `name`; returns the action,
    /// a status and the VM's name.
    pub fn delete_operation_spec() -> (r: JsonValue)
        ensures
            r@ == spec_delete_operation(),
    {
        let mut name_schema: Vec<JsonMember> = Vec::new();
        push_field(&mut name_schema, "required", JsonValue::Bool(true));
        push_field(&mut name_schema, "type", JsonValue::Str(String::from_str("string")));
        proof {
            assert(crate::json::obj_view(name_schema@) =~= seq![
                ("required"@, JsonVal::Bool(true)),
                ("type"@, JsonVal::Str("string"@)),
            ]);
        }
        let mut params: Vec<JsonMember> = Vec::new();
        push_field(&mut params, "name", JsonValue::Obj(name_schema));
        proof {
            assert(crate::json::obj_view(params@) =~= spec_delete_operation()->Obj_0[2].1->Obj_0);
        }
        let mut props: Vec<JsonMember> = Vec::new();
        push_field(&mut props, "action", type_obj("string"));
        push_field(&mut props, "status", type_obj("string"));
        push_field(&mut props, "vm_name", type_obj("string"));
        proof {
            assert(crate::json::obj_view(props@) =~=
                spec_delete_operation()->Obj_0[3].1->Obj_0[0].1->Obj_0);
        }
        let mut ret_schema: Vec<JsonMember> = Vec::new();
        push_field(&mut ret_schema, "properties", JsonValue::Obj(props));
        push_field(&mut ret_schema, "type", JsonValue::Str(String::from_str("object")));
        proof {
            assert(crate::json::obj_view(ret_schema@) =~= spec_delete_operation()->Obj_0[3].1->Obj_0);
        }
        let mut doc: Vec<JsonMember> = Vec::new();
        push_field(
            &mut doc,
            "description",
            JsonValue::Str(String::from_str("Delete a virtual machine")),
        );
        push_field(&mut doc, "name", JsonValue::Str(String::from_str("delete")));
        push_field(&mut doc, "parameters", JsonValue::Obj(params));
        push_field(&mut doc, "returns", JsonValue::Obj(ret_schema));
        let r = JsonValue::Obj(doc);
        proof {
            assert(r@->Obj_0 =~= spec_delete_operation()->Obj_0);
        }
        r
    }
}

} // verus!
