use doc_anonymisation::fileops::FileOp;
use doc_anonymisation::workspace::{get_working_dirs_from_base, working_dirs};
use std::collections::{HashMap, HashSet};

/// A filesystem held in memory, on which the operations of the library are performed.
#[derive(Default, Debug, Clone, PartialEq)]
struct MemFs {
    files: HashMap<String, Vec<u8>>,
    dirs: HashSet<String>,
}

fn parent(p: &str) -> &str {
    match p.rfind('/') {
        Some(i) => &p[..i],
        None => "",
    }
}

impl MemFs {
    fn dir_exists(&self, d: &str) -> bool {
        d.is_empty() || self.dirs.contains(d)
    }

    fn apply(&mut self, op: &FileOp) -> Result<(), String> {
        match op {
            FileOp::CreateDirAll(d) => {
                let mut cur = String::new();
                for (i, part) in d.split('/').enumerate() {
                    if i > 0 {
                        cur.push('/');
                    }
                    cur.push_str(part);
                    if !part.is_empty() {
                        self.dirs.insert(cur.clone());
                    }
                }
                Ok(())
            }
            FileOp::Copy { from, to } => {
                let bytes = self.files.get(from).cloned().ok_or(format!("{from}: no such file"))?;
                if !self.dir_exists(parent(to)) {
                    return Err(format!("{to}: no such directory"));
                }
                self.files.insert(to.clone(), bytes);
                Ok(())
            }
            FileOp::Remove(p) => self.files.remove(p).map(|_| ()).ok_or(format!("{p}: no such file")),
        }
    }

    fn apply_all(&mut self, ops: &[FileOp]) -> Result<(), String> {
        for op in ops {
            self.apply(op)?;
        }
        Ok(())
    }
}

#[test]
fn test_get_working_dirs_from_base_creates_dirs() {
    let mut fs = MemFs::default();
    let base_path = "/tmp/appdata";

    let (input_dir, output_dir, ops) = get_working_dirs_from_base(base_path);
    fs.apply_all(&ops).unwrap();

    assert!(fs.dir_exists(&input_dir));
    assert!(input_dir.ends_with("input_text"));

    assert!(fs.dir_exists(&output_dir));
    assert!(output_dir.ends_with("output_text"));
}

#[test]
fn working_dirs_are_named_under_the_base() {
    assert_eq!(
        working_dirs("/data/app"),
        ("/data/app/input_text".to_string(), "/data/app/output_text".to_string())
    );
    let (i, o, ops) = get_working_dirs_from_base("/data/app");
    assert_eq!((i.as_str(), o.as_str()), ("/data/app/input_text", "/data/app/output_text"));
    assert!(matches!(&ops[..], [FileOp::CreateDirAll(a), FileOp::CreateDirAll(b)] if a == &i && b == &o));
    assert_eq!(
        working_dirs("/data/app/"),
        ("/data/app/input_text".to_string(), "/data/app/output_text".to_string())
    );
}

#[test]
fn making_the_workspace_twice_changes_nothing() {
    let mut fs = MemFs::default();
    let (i1, o1, ops1) = get_working_dirs_from_base("/base");
    fs.apply_all(&ops1).unwrap();
    let after_first = fs.clone();
    let (i2, o2, ops2) = get_working_dirs_from_base("/base");
    assert_eq!(fs.apply_all(&ops2), Ok(()));
    assert_eq!((i1, o1), (i2, o2));
    assert_eq!(fs, after_first);
}
