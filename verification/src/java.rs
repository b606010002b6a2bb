//! Where a host keeps its Java installations, per OS, and which directory
//! entries name one. Listing the directory itself is the caller's job; the
//! rules that pick and shape the paths are verified here.

use vstd::prelude::*;
use vstd::string::StringExecFns;
use crate::text::concat_strs;
use crate::text::is_prefix_of;
use crate::text::starts_with;
use crate::text::str_eq;

verus! {

pub open spec fn java_versions_dir_spec(os_type: Seq<char>) -> Option<Seq<char>> {
    if os_type == "win32"@ {
        Some("C:\\Program Files\\Java"@)
    } else if os_type == "darwin"@ {
        Some("/Library/Java/JavaVirtualMachines"@)
    } else if os_type == "linux"@ {
        Some("/usr/lib/jvm"@)
    } else {
        None
    }
}

/// The directory that holds Java installations on the given OS.
pub fn get_java_versions_dir(os_type: &str) -> (r: Option<String>)
    ensures
        match r {
            Some(d) => java_versions_dir_spec(os_type@) == Some(d@),
            None => java_versions_dir_spec(os_type@).is_none(),
        },
{
    if str_eq(os_type, "win32") {
        Some(String::from_str("C:\\Program Files\\Java"))
    } else if str_eq(os_type, "darwin") {
        Some(String::from_str("/Library/Java/JavaVirtualMachines"))
    } else if str_eq(os_type, "linux") {
        Some(String::from_str("/usr/lib/jvm"))
    } else {
        None
    }
}

pub open spec fn java_path_spec(os_type: Seq<char>, version: Seq<char>) -> Seq<char> {
    if os_type == "win32"@ {
        "C:\\Program Files\\Java\\"@ + version + "\\bin\\java.exe"@
    } else if os_type == "darwin"@ {
        "/Library/Java/JavaVirtualMachines/"@ + version + ".jdk/Contents/Home/bin/java"@
    } else {
        "/usr/lib/jvm/"@ + version + "/bin/java"@
    }
}

/// The path of the `java` executable of one installed version.
pub fn get_java_path(os_type: &str, version: &str) -> (r: String)
    requires
        os_type@ == "win32"@ || os_type@ == "darwin"@ || os_type@ == "linux"@,
    ensures
        r@ == java_path_spec(os_type@, version@),
{
    if str_eq(os_type, "win32") {
        concat_strs("C:\\Program Files\\Java\\", version).concat("\\bin\\java.exe")
    } else if str_eq(os_type, "darwin") {
        concat_strs("/Library/Java/JavaVirtualMachines/", version).concat(
            ".jdk/Contents/Home/bin/java",
        )
    } else {
        concat_strs("/usr/lib/jvm/", version).concat("/bin/java")
    }
}

/// Whether a directory entry names a Java installation.
pub open spec fn is_java_version_name(name: Seq<char>) -> bool {
    is_prefix_of("jdk"@, name) || is_prefix_of("jre"@, name)
}

pub open spec fn java_versions_spec(names: Seq<Seq<char>>) -> Seq<Seq<char>>
    decreases names.len(),
{
    if names.len() == 0 {
        Seq::<Seq<char>>::empty()
    } else {
        java_versions_spec(names.drop_last()) + (if is_java_version_name(names.last()) {
            seq![names.last()]
        } else {
            Seq::<Seq<char>>::empty()
        })
    }
}

/// Keeps the directory entries that name a Java installation, in order.
pub fn get_java_versions(file_names: &Vec<String>) -> (r: Vec<String>)
    ensures
        r.deep_view() == java_versions_spec(file_names.deep_view()),
{
    let mut r: Vec<String> = Vec::new();
    let mut i: usize = 0;
    proof {
        assert(file_names.deep_view().subrange(0, 0) =~= Seq::<Seq<char>>::empty());
        assert(r.deep_view() =~= Seq::<Seq<char>>::empty());
    }
    while i < file_names.len()
        invariant
            i <= file_names@.len(),
            file_names.deep_view().len() == file_names@.len(),
            r.deep_view() == java_versions_spec(file_names.deep_view().subrange(0, i as int)),
        decreases file_names@.len() - i,
    {
        let name = &file_names[i];
        if starts_with(name.as_str(), "jdk") || starts_with(name.as_str(), "jre") {
            r.push(name.clone());
        }
        proof {
            let dv = file_names.deep_view();
            let pre = dv.subrange(0, i + 1);
            assert(pre.drop_last() =~= dv.subrange(0, i as int));
            assert(pre.last() == dv[i as int]);
            assert(dv[i as int] == file_names@[i as int]@);
            assert(r.deep_view() =~= java_versions_spec(pre));
        }
        i += 1;
    }
    proof {
        let dv = file_names.deep_view();
        assert(dv.subrange(0, dv.len() as int) =~= dv);
    }
    r
}

} // verus!
