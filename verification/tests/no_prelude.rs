use ::git_testament::{
    git_testament, macro_content, CommitInfo, GitInformation, InvocationInformation,
};

fn information(branch: ::core::option::Option<&str>) -> GitInformation {
    GitInformation {
        branch: branch.map(|name| name.to_owned()),
        commitinfo: ::core::option::Option::Some(CommitInfo {
            id: "763aa159d7e6f5a4b3c2d1e0f9a8b7c6d5e4f3a2".to_owned(),
            date: "2019-04-02".to_owned(),
            tag: "1.0.0".to_owned(),
            distance: 0,
        }),
        status: ::std::vec::Vec::new(),
    }
}

#[test]
fn it_works() {
    let invocation = InvocationInformation {
        pkgver: "1.0.0".to_owned(),
        now: "2019-04-03".to_owned(),
    };
    for branch in [
        ::core::option::Option::Some("main"),
        ::core::option::Option::None,
    ] {
        let gitinfo = information(branch);
        let modifications = gitinfo.modifications();
        let testament = git_testament(
            &invocation,
            ::core::option::Option::Some(&gitinfo),
            &modifications,
        );
        let macros = macro_content(&invocation, ::core::option::Option::Some(&gitinfo));
        core::assert_eq!(macros.branch.as_deref(), testament.branch_name);
        core::assert_eq!(testament.branch_name, branch);
    }
}
