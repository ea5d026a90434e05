//! Markdown documentation of Tekton resource kinds and fields, shown on hover.

use vstd::prelude::*;
use crate::text::str_eq;

verus! {
pub const PIPELINE_DOC: &'static str = r#"# Pipeline

A Pipeline is a collection of Tasks that you define and arrange in a specific order of execution as part of your continuous integration flow.

Each Task in a Pipeline executes as a Pod on your Kubernetes cluster. You can configure various execution conditions to fit your business needs.

[Tekton Pipelines Documentation](https://tekton.dev/docs/pipelines/pipelines/)"#;
pub const TASK_DOC: &'static str = r#"# Task

A Task is a collection of Steps that you define and arrange in a specific order of execution as part of your continuous integration flow.

A Task executes as a Pod on your Kubernetes cluster. Each Step within a Task executes in its own container within the same Pod.

[Tekton Tasks Documentation](https://tekton.dev/docs/pipelines/tasks/)"#;
pub const PIPELINE_RUN_DOC: &'static str = r#"# PipelineRun

A PipelineRun instantiates and executes a Pipeline on your cluster.

The PipelineRun references the Pipeline you want to execute and provides the necessary parameters, workspaces, and context.

[Tekton PipelineRuns Documentation](https://tekton.dev/docs/pipelines/pipelineruns/)"#;
pub const TASK_RUN_DOC: &'static str = r#"# TaskRun

A TaskRun instantiates and executes a Task on your cluster.

The TaskRun references the Task you want to execute and provides the necessary parameters, workspaces, and context.

[Tekton TaskRuns Documentation](https://tekton.dev/docs/pipelines/taskruns/)"#;
pub const TASKS_DOC: &'static str = r#"# tasks

Specifies the Tasks that comprise the Pipeline and the details of their execution.

Each PipelineTask must have:
- **name**: unique name for the task in the pipeline
- **taskRef** or **taskSpec**: reference to an existing Task or inline Task definition

Optional fields:
- **runAfter**: specify tasks that must complete before this one
- **params**: parameters to pass to the task
- **workspaces**: workspace bindings
- **when**: conditional execution expressions"#;
pub const STEPS_DOC: &'static str = r#"# steps

Specifies one or more container images to run in the Task.

Each Step runs sequentially in the order specified. If a Step fails, subsequent Steps are not executed.

Required fields:
- **image**: container image to run

Common fields:
- **name**: step name
- **script**: script to execute in the container
- **command**: command and arguments to run
- **env**: environment variables
- **workingDir**: working directory"#;
pub const PARAMS_DOC: &'static str = r#"# params

Specifies the execution parameters for the Pipeline/Task.

Parameters can be:
- **string**: simple string value
- **array**: list of string values
- **object**: structured data with properties

Each parameter can have:
- **name**: parameter name (required)
- **type**: string, array, or object
- **description**: human-readable description
- **default**: default value if not provided"#;
pub const WORKSPACES_DOC: &'static str = r#"# workspaces

Specifies paths to volumes required by the Pipeline/Task to execute.

Workspaces allow Tasks to share data and can be backed by:
- PersistentVolumeClaim
- emptyDir
- ConfigMap
- Secret

Each workspace has:
- **name**: workspace name (required)
- **description**: human-readable description
- **optional**: whether the workspace is optional
- **readOnly**: whether the workspace is read-only
- **mountPath**: path where the workspace is mounted"#;
pub const TASK_REF_DOC: &'static str = r#"# taskRef

Reference to a Task that exists in the cluster.

Can reference a Task by:
- **name**: name of the Task in the same namespace
- **kind**: Task or ClusterTask (optional)
- **apiVersion**: API version (optional)

Example:
```yaml
taskRef:
  name: build-task
```"#;
pub const TASK_SPEC_DOC: &'static str = r#"# taskSpec

Inline Task specification embedded in the Pipeline.

Allows defining a Task directly without creating a separate Task resource.

Contains the same fields as a Task spec:
- **steps**: task steps (required)
- **params**: task parameters
- **workspaces**: task workspaces
- **results**: task results"#;
pub const RESULTS_DOC: &'static str = r#"# results

Specifies the results that the Task/Pipeline will emit.

Results can be used to pass data between Tasks or output data from a Pipeline.

Each result has:
- **name**: result name (required)
- **description**: human-readable description
- **type**: string (default) or array

Tasks emit results by writing to:
```
$(results.<name>.path)
```"#;
pub const FINALLY_DOC: &'static str = r#"# finally

Specifies Tasks that run after all other Pipeline tasks complete.

Finally tasks run regardless of whether the Pipeline succeeded or failed. They are commonly used for:
- Cleanup operations
- Sending notifications
- Recording metrics

Finally tasks cannot have dependencies on regular Pipeline tasks and cannot use `runAfter`."#;
pub const RUN_AFTER_DOC: &'static str = r#"# runAfter

Specifies the list of PipelineTask names that must complete before this one runs.

Example:
```yaml
- name: deploy
  taskRef:
    name: deploy-task
  runAfter:
    - build
    - test
```

This ensures proper ordering of task execution in the Pipeline."#;
pub const METADATA_DOC: &'static str = r#"# metadata

Standard Kubernetes object metadata.

Required fields:
- **name**: resource name (must be unique in namespace)

Common fields:
- **namespace**: namespace (defaults to "default")
- **labels**: key-value labels for organizing resources
- **annotations**: key-value annotations for storing metadata"#;
pub const NAME_DOC: &'static str = r#"# name

The name of the resource.

Must be unique within its namespace and follow Kubernetes naming conventions:
- Contain only lowercase alphanumeric characters, '-' or '.'
- Start with an alphanumeric character
- Be at most 253 characters

Example: `my-pipeline`, `build-task-v1`"#;
pub const NAMESPACE_DOC: &'static str = r#"# namespace

The Kubernetes namespace where this resource exists.

If not specified, defaults to the `default` namespace or the namespace in the current context.

Example: `tekton-pipelines`, `my-project`"#;
pub const LABELS_DOC: &'static str = r#"# labels

Key-value pairs used to organize and select resources.

Labels are used for:
- Organizing resources into groups
- Selecting resources with label selectors
- Filtering in CLI and UI

Example:
```yaml
labels:
  app: my-app
  environment: production
```"#;
pub const ANNOTATIONS_DOC: &'static str = r#"# annotations

Key-value pairs for storing non-identifying metadata.

Annotations are used for:
- Build information
- Tool configuration
- Deployment details

Example:
```yaml
annotations:
  description: "Main build pipeline"
  author: "team@example.com"
```"#;
pub const SPEC_DOC: &'static str = r#"# spec

Specification of the desired behavior of the resource.

Contains resource-specific fields that define how the Pipeline/Task/Run should execute."#;
pub const IMAGE_DOC: &'static str = r#"# image

The container image to use for this Step.

Must be a valid container image reference:
- `ubuntu:latest`
- `gcr.io/project/image:tag`
- `registry.example.com/image@sha256:...`

Example:
```yaml
- name: build
  image: golang:1.21
  script: |
    go build ./...
```"#;
pub const SCRIPT_DOC: &'static str = r#"# script

A script to execute in the container.

The script runs as the container's entrypoint. Use a shebang to specify the interpreter:

```yaml
script: |
  #!/usr/bin/env bash
  set -e
  echo "Building..."
  make build
```

If no shebang is provided, the default shell is used."#;
pub const COMMAND_DOC: &'static str = r#"# command

The container entrypoint command.

Overrides the container image's ENTRYPOINT:

```yaml
command:
  - /bin/bash
  - -c
  - echo "Hello"
```

Use `args` to provide additional arguments."#;
pub const ARGS_DOC: &'static str = r#"# args

Arguments to the container entrypoint.

Overrides the container image's CMD:

```yaml
command:
  - python
args:
  - script.py
  - --verbose
```"#;
pub const ENV_DOC: &'static str = r#"# env

Environment variables for the container.

Example:
```yaml
env:
  - name: MY_VAR
    value: "my-value"
  - name: SECRET_VAR
    valueFrom:
      secretKeyRef:
        name: my-secret
        key: password
```"#;
pub const WORKING_DIR_DOC: &'static str = r#"# workingDir

The working directory for the container.

Defaults to the container image's WORKDIR. Can reference workspace paths:

```yaml
workingDir: $(workspaces.source.path)
```"#;

/// The documentation of a field name or resource kind.
pub open spec fn documentation(key: Seq<char>) -> Option<Seq<char>> {
    if key == "Pipeline"@ {
        Some(PIPELINE_DOC@)
    } else if key == "Task"@ {
        Some(TASK_DOC@)
    } else if key == "PipelineRun"@ {
        Some(PIPELINE_RUN_DOC@)
    } else if key == "TaskRun"@ {
        Some(TASK_RUN_DOC@)
    } else if key == "tasks"@ {
        Some(TASKS_DOC@)
    } else if key == "steps"@ {
        Some(STEPS_DOC@)
    } else if key == "params"@ {
        Some(PARAMS_DOC@)
    } else if key == "workspaces"@ {
        Some(WORKSPACES_DOC@)
    } else if key == "taskRef"@ {
        Some(TASK_REF_DOC@)
    } else if key == "taskSpec"@ {
        Some(TASK_SPEC_DOC@)
    } else if key == "results"@ {
        Some(RESULTS_DOC@)
    } else if key == "finally"@ {
        Some(FINALLY_DOC@)
    } else if key == "runAfter"@ {
        Some(RUN_AFTER_DOC@)
    } else if key == "metadata"@ {
        Some(METADATA_DOC@)
    } else if key == "name"@ {
        Some(NAME_DOC@)
    } else if key == "namespace"@ {
        Some(NAMESPACE_DOC@)
    } else if key == "labels"@ {
        Some(LABELS_DOC@)
    } else if key == "annotations"@ {
        Some(ANNOTATIONS_DOC@)
    } else if key == "spec"@ {
        Some(SPEC_DOC@)
    } else if key == "image"@ {
        Some(IMAGE_DOC@)
    } else if key == "script"@ {
        Some(SCRIPT_DOC@)
    } else if key == "command"@ {
        Some(COMMAND_DOC@)
    } else if key == "args"@ {
        Some(ARGS_DOC@)
    } else if key == "env"@ {
        Some(ENV_DOC@)
    } else if key == "workingDir"@ {
        Some(WORKING_DIR_DOC@)
    } else {
        None
    }
}

/// The documentation of a field name or resource kind, if there is one.
pub fn get_documentation(key: &str) -> (r: Option<&'static str>)
    ensures
        match r {
            Some(text) => documentation(key@) == Some(text@),
            None => documentation(key@) is None,
        },
{
    if str_eq(key, "Pipeline") {
        return Some(PIPELINE_DOC);
    }
    if str_eq(key, "Task") {
        return Some(TASK_DOC);
    }
    if str_eq(key, "PipelineRun") {
        return Some(PIPELINE_RUN_DOC);
    }
    if str_eq(key, "TaskRun") {
        return Some(TASK_RUN_DOC);
    }
    if str_eq(key, "tasks") {
        return Some(TASKS_DOC);
    }
    if str_eq(key, "steps") {
        return Some(STEPS_DOC);
    }
    if str_eq(key, "params") {
        return Some(PARAMS_DOC);
    }
    if str_eq(key, "workspaces") {
        return Some(WORKSPACES_DOC);
    }
    if str_eq(key, "taskRef") {
        return Some(TASK_REF_DOC);
    }
    if str_eq(key, "taskSpec") {
        return Some(TASK_SPEC_DOC);
    }
    if str_eq(key, "results") {
        return Some(RESULTS_DOC);
    }
    if str_eq(key, "finally") {
        return Some(FINALLY_DOC);
    }
    if str_eq(key, "runAfter") {
        return Some(RUN_AFTER_DOC);
    }
    if str_eq(key, "metadata") {
        return Some(METADATA_DOC);
    }
    if str_eq(key, "name") {
        return Some(NAME_DOC);
    }
    if str_eq(key, "namespace") {
        return Some(NAMESPACE_DOC);
    }
    if str_eq(key, "labels") {
        return Some(LABELS_DOC);
    }
    if str_eq(key, "annotations") {
        return Some(ANNOTATIONS_DOC);
    }
    if str_eq(key, "spec") {
        return Some(SPEC_DOC);
    }
    if str_eq(key, "image") {
        return Some(IMAGE_DOC);
    }
    if str_eq(key, "script") {
        return Some(SCRIPT_DOC);
    }
    if str_eq(key, "command") {
        return Some(COMMAND_DOC);
    }
    if str_eq(key, "args") {
        return Some(ARGS_DOC);
    }
    if str_eq(key, "env") {
        return Some(ENV_DOC);
    }
    if str_eq(key, "workingDir") {
        return Some(WORKING_DIR_DOC);
    }
    None
}

} // verus!
