# pmp-deploy

Multi-infrastructure application deployments (Docker Compose, Kubernetes
with Helm, Kustomize or raw manifests, AWS EKS, ECS and Lambda), with the
decisions proved correct in Verus.

- `src/` is the verified library: the configuration model and its
  validation, environment-variable sources, hook configuration and hook
  outcomes, rolling-update batching, deployment phases and resumption,
  provisioning plans and state diffs for ECS and Lambda, the masking of
  credentials in logged text, and every command
  line (`helm`, `kubectl`, `docker compose`) with the reading of its output.
  Each public function states its result in `ensures`; the laws that relate
  several functions are public proof functions (`lemma_*`).
- `tests/` runs the library on concrete values.
- `app/` is the unverified shell: YAML and command-line parsing, logging
  setup, running the commands the library builds, HTTP, Docker and AWS calls
  for hooks, deployments, provisioning, layers and event sources, the interactive `init` wizard, and the plugin C boundary.
